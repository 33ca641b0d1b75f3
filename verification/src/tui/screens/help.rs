//! The help screen: any of Esc, `q` or Enter goes back.

use vstd::prelude::*;
use super::keys::{Key, KeyPress};

verus! {

/// Where a key on the help screen leads.
pub enum Nav {
    Stay,
    Back,
}

/// Handles a key on the help screen.
pub fn handle_key(key: KeyPress) -> (nav: Nav)
    ensures
        nav is Back <==> (key.code is Esc || key.code is Enter || key.code == Key::Char('q')),
        nav is Stay <==> !(nav is Back),
{
    match key.code {
        Key::Esc | Key::Enter => Nav::Back,
        Key::Char(c) => if c == 'q' {
            Nav::Back
        } else {
            Nav::Stay
        },
        _ => Nav::Stay,
    }
}

} // verus!
