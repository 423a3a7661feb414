//! Tray-menu decisions and icon rendering.
//!
//! The tray collaborator shows one menu and one icon; which label, which
//! language and which pixels is decided here, while the windowing calls
//! stay outside. The icon is a filled disc of the state's colour on a
//! transparent 32 by 32 canvas.

use vstd::prelude::*;
use vstd::string::StringExecFns;

use crate::config::Config;
use crate::state::AppState;

verus! {

/// The pause menu entry reads `Resume` while paused, `Pause` otherwise.
pub open spec fn spec_pause_label(s: AppState) -> Seq<char> {
    if s is Paused {
        "Resume"@
    } else {
        "Pause"@
    }
}

/// The label of the pause menu entry for a state.
pub fn pause_label(state: AppState) -> (r: &'static str)
    ensures
        r@ == spec_pause_label(state),
{
    match state {
        AppState::Paused => "Resume",
        _ => "Pause",
    }
}

/// The language menu label for a language code: English for `en`,
/// German otherwise (the menu only ever toggles between the two).
pub open spec fn spec_language_label(lang: Seq<char>) -> Seq<char> {
    if lang == "en"@ {
        "Language: English"@
    } else {
        "Language: German"@
    }
}

/// Switches the configured language between English and German and
/// returns the new menu label. Nothing else in the snapshot changes.
pub fn toggle_language(config: &mut Config) -> (label: &'static str)
    ensures
        old(config).deepgram.language@ == "en"@ ==> final(config).deepgram.language@ == "de"@,
        old(config).deepgram.language@ != "en"@ ==> final(config).deepgram.language@ == "en"@,
        label@ == spec_language_label(final(config).deepgram.language@),
        final(config).deepgram.api_key == old(config).deepgram.api_key,
        final(config).deepgram.model == old(config).deepgram.model,
        final(config).audio == old(config).audio,
        final(config).vad == old(config).vad,
{
    let english: String = "en".to_owned();
    if config.deepgram.language == english {
        config.deepgram.language = "de".to_owned();
        proof {
            reveal_strlit("en");
            reveal_strlit("de");
            assert("de"@[0] == 'd' && "en"@[0] == 'e');
            assert("de"@ != "en"@);
        }
        "Language: German"
    } else {
        config.deepgram.language = "en".to_owned();
        "Language: English"
    }
}

/// The icon colour of a state, as RGB: blue while transcribing, red when
/// paused or in a microphone conflict, grey otherwise.
pub open spec fn spec_icon_rgb(s: AppState) -> (u8, u8, u8) {
    match s {
        AppState::Speaking => (0u8, 120u8, 212u8),
        AppState::Paused | AppState::MicConflict => (209u8, 52u8, 56u8),
        AppState::Active | AppState::AutoPaused => (138u8, 138u8, 138u8),
    }
}

/// Byte `i` of the 32 by 32 RGBA icon for a state: inside the disc of
/// radius 12 around the centre the state's colour with full alpha,
/// outside it transparent black.
pub open spec fn spec_icon_byte(s: AppState, i: int) -> u8 {
    let p = i / 4;
    let ch = i % 4;
    let x = p % 32;
    let y = p / 32;
    let inside = (x - 16) * (x - 16) + (y - 16) * (y - 16) < 144;
    if !inside {
        0u8
    } else if ch == 0 {
        spec_icon_rgb(s).0
    } else if ch == 1 {
        spec_icon_rgb(s).1
    } else if ch == 2 {
        spec_icon_rgb(s).2
    } else {
        255u8
    }
}

/// Renders the 32 by 32 RGBA icon for a state.
pub fn generate_icon(state: AppState) -> (data: Vec<u8>)
    ensures
        data@.len() == 4096,
        forall|i: int| 0 <= i < 4096 ==> #[trigger] data@[i] == spec_icon_byte(state, i),
{
    let (r, g, b) = match state {
        AppState::Speaking => (0u8, 120u8, 212u8),
        AppState::Paused | AppState::MicConflict => (209u8, 52u8, 56u8),
        AppState::Active | AppState::AutoPaused => (138u8, 138u8, 138u8),
    };
    let mut data: Vec<u8> = Vec::new();
    let mut p: usize = 0;
    while p < 1024
        invariant
            p <= 1024,
            data@.len() == 4 * p,
            (r, g, b) == spec_icon_rgb(state),
            forall|i: int| 0 <= i < 4 * p ==> #[trigger] data@[i] == spec_icon_byte(state, i),
        decreases 1024 - p,
    {
        let x = (p % 32) as i32;
        let y = (p / 32) as i32;
        let dx = x - 16;
        let dy = y - 16;
        proof {
            assert(0 <= dx * dx <= 256 && 0 <= dy * dy <= 256) by (nonlinear_arith)
                requires
                    -16 <= dx <= 16,
                    -16 <= dy <= 16,
            ;
        }
        let dist_sq = dx * dx + dy * dy;
        let inside = dist_sq < 144;
        if inside {
            data.push(r);
            data.push(g);
            data.push(b);
            data.push(255);
        } else {
            data.push(0);
            data.push(0);
            data.push(0);
            data.push(0);
        }
        proof {
            let pi = p as int;
            vstd::arithmetic::div_mod::lemma_fundamental_div_mod_converse(4 * pi + 0, 4, pi, 0);
            vstd::arithmetic::div_mod::lemma_fundamental_div_mod_converse(4 * pi + 1, 4, pi, 1);
            vstd::arithmetic::div_mod::lemma_fundamental_div_mod_converse(4 * pi + 2, 4, pi, 2);
            vstd::arithmetic::div_mod::lemma_fundamental_div_mod_converse(4 * pi + 3, 4, pi, 3);
        }
        p = p + 1;
    }
    data
}

} // verus!
