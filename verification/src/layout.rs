//! Screen geometry and the text of the send form's fields.

use vstd::prelude::*;
use crate::app::{App, Mode, SendField};
use crate::text::{copy_str, push_char};

verus! {

/// A rectangle of terminal cells.
#[derive(Clone, Copy, PartialEq, Eq, Structural, Debug)]
pub struct Area {
    pub x: u16,
    pub y: u16,
    pub width: u16,
    pub height: u16,
}

/// A box of at most `width` by `height` cells centred in `area`.
pub fn centered(area: Area, width: u16, height: u16) -> (r: Area)
    requires
        area.x + (area.width - (if width < area.width {
            width
        } else {
            area.width
        })) / 2 <= u16::MAX,
        area.y + (area.height - (if height < area.height {
            height
        } else {
            area.height
        })) / 2 <= u16::MAX,
    ensures
        r.width == (if width < area.width { width } else { area.width }),
        r.height == (if height < area.height { height } else { area.height }),
        r.x == area.x + (area.width - r.width) / 2,
        r.y == area.y + (area.height - r.height) / 2,
{
    let width = if width < area.width {
        width
    } else {
        area.width
    };
    let height = if height < area.height {
        height
    } else {
        area.height
    };
    Area {
        x: area.x + (area.width - width) / 2,
        y: area.y + (area.height - height) / 2,
        width,
        height,
    }
}

/// How a send-form field reads: its text, a cursor `▌` after it while it
/// is being typed into, and `…` for an empty field not being typed into.
pub open spec fn field_text(value: Seq<char>, typing: bool) -> Seq<char> {
    if value.len() == 0 {
        if typing {
            seq!['▌']
        } else {
            seq!['…']
        }
    } else if typing {
        value.push('▌')
    } else {
        value
    }
}

/// The text of the send-form field `field` holding `value`.
pub fn display_field(value: &str, app: &App, field: SendField) -> (r: String)
    ensures
        r@ == field_text(value@, app.mode == Mode::Insert && app.send_field == field),
{
    let typing = app.mode == Mode::Insert && app.send_field == field;
    let mut r = String::new();
    if value.is_empty() {
        if typing {
            push_char(&mut r, '▌');
        } else {
            push_char(&mut r, '…');
        }
    } else {
        r = copy_str(value);
        if typing {
            push_char(&mut r, '▌');
        }
    }
    r
}

} // verus!
