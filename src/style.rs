use vstd::prelude::*;

verus! {

/// Native style-mask bits.
pub const TITLED: u64 = 1;
pub const CLOSABLE: u64 = 2;
pub const MINIATURIZABLE: u64 = 4;
pub const RESIZABLE: u64 = 8;
pub const FULL_SIZE_CONTENT_VIEW: u64 = 0x8000;

/// The collection-behaviour bit that keeps a window out of full screen.
pub const FULL_SCREEN_NONE: u64 = 0x200;

#[derive(Clone, Copy, Debug, PartialEq, Eq, Structural)]
pub enum WindowFrame {
    Regular,
    NoTitle,
    NoFrame,
}

#[derive(Clone, Copy, Debug, PartialEq, Eq, Structural)]
pub struct WindowStyle {
    pub frame: WindowFrame,
    pub can_resize: bool,
    pub can_close: bool,
    pub can_minimize: bool,
    pub can_full_screen: bool,
}

/// The native settings that a style comes to.
#[derive(Clone, Copy, Debug, PartialEq, Eq, Structural)]
pub struct StyleSettings {
    pub style_mask: u64,
    pub movable: bool,
    pub titlebar_transparent: bool,
    pub has_shadow: bool,
    pub collection_behavior: u64,
}

pub open spec fn bit_if(c: bool, bit: u64) -> u64 {
    if c {
        bit
    } else {
        0
    }
}

/// A frameless window has no title bar and no buttons; a window without a
/// title draws its content under the (transparent) title bar.
pub open spec fn spec_style_mask(style: WindowStyle) -> u64 {
    let framed = style.frame != WindowFrame::NoFrame;
    bit_if(style.frame == WindowFrame::NoTitle, FULL_SIZE_CONTENT_VIEW) | bit_if(framed, TITLED)
        | bit_if(framed && style.can_close, CLOSABLE) | bit_if(framed && style.can_resize, RESIZABLE)
        | bit_if(framed && style.can_minimize, MINIATURIZABLE)
}

/// The collection behaviour with the full-screen bit set or cleared, all other
/// bits kept.
pub open spec fn spec_collection_behavior(current: u64, can_full_screen: bool) -> u64 {
    if can_full_screen {
        current & !FULL_SCREEN_NONE
    } else {
        current | FULL_SCREEN_NONE
    }
}

pub open spec fn spec_style_settings(style: WindowStyle, current_behavior: u64) -> StyleSettings {
    StyleSettings {
        style_mask: spec_style_mask(style),
        movable: style.frame == WindowFrame::Regular,
        titlebar_transparent: style.frame != WindowFrame::Regular,
        has_shadow: style.frame != WindowFrame::NoFrame,
        collection_behavior: spec_collection_behavior(current_behavior, style.can_full_screen),
    }
}

fn bit_when(c: bool, bit: u64) -> (r: u64)
    ensures
        r == bit_if(c, bit),
{
    if c {
        bit
    } else {
        0
    }
}

/// The native settings for `style`, given the window's current collection
/// behaviour.
pub fn style_settings(style: WindowStyle, current_behavior: u64) -> (r: StyleSettings)
    ensures
        r == spec_style_settings(style, current_behavior),
{
    let framed = match style.frame {
        WindowFrame::NoFrame => false,
        _ => true,
    };
    let no_title = match style.frame {
        WindowFrame::NoTitle => true,
        _ => false,
    };
    let regular = match style.frame {
        WindowFrame::Regular => true,
        _ => false,
    };
    let mask = bit_when(no_title, FULL_SIZE_CONTENT_VIEW) | bit_when(framed, TITLED) | bit_when(
        framed && style.can_close,
        CLOSABLE,
    ) | bit_when(framed && style.can_resize, RESIZABLE) | bit_when(
        framed && style.can_minimize,
        MINIATURIZABLE,
    );
    let behavior = if style.can_full_screen {
        current_behavior & !FULL_SCREEN_NONE
    } else {
        current_behavior | FULL_SCREEN_NONE
    };
    StyleSettings {
        style_mask: mask,
        movable: regular,
        titlebar_transparent: !regular,
        has_shadow: framed,
        collection_behavior: behavior,
    }
}

} // verus!
