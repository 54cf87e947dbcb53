//! The control panel's widget palette: which colors, text colors and borders
//! each button and container kind shows in each interaction state. The
//! choices are pure data; turning a palette color into concrete channel
//! values (and the fixed corner radius and border width) is the renderer's
//! job.

use vstd::prelude::*;

verus! {

/// The named colors of the panel's palette. `Dimmed` backgrounds stand for
/// the darkened variant a pressed button shows.
#[derive(Clone, Copy, Debug, PartialEq, Eq, Structural)]
pub enum PaletteColor {
    White,
    Black,
    Red,
    Orange,
    Yellow,
    Green,
    Blue,
    Gray,
    LightGray,
    /// The window background shade.
    WindowBackground,
    /// The highlight blue of selected-button borders.
    BorderBlue,
}

/// Everything color-like about one button state.
#[derive(Clone, Copy, Debug, PartialEq, Eq, Structural)]
pub struct ButtonStyle {
    pub background: PaletteColor,
    /// The background is shown in its darkened, pressed variant.
    pub background_dimmed: bool,
    pub text: PaletteColor,
    pub border: PaletteColor,
    /// A visible border marks selected and disabled buttons.
    pub border_visible: bool,
}

/// Everything color-like about one container kind.
#[derive(Clone, Copy, Debug, PartialEq, Eq, Structural)]
pub struct ContainerStyle {
    pub text: PaletteColor,
    pub background: Option<PaletteColor>,
    pub border: PaletteColor,
    pub border_visible: bool,
}

/// The kinds of buttons the panel draws.
#[derive(Clone, Copy, Debug, PartialEq, Eq, Structural)]
pub enum Button {
    White,
    WhiteSelected,
    Black,
    BlackSelected,
    Red,
    RedSelected,
    Orange,
    OrangeSelected,
    Yellow,
    YellowSelected,
    Green,
    GreenSelected,
    Blue,
    Gray,
    LightGray,
}

/// Background and text color of a button at rest.
pub open spec fn spec_button_colors(b: Button) -> (PaletteColor, PaletteColor) {
    match b {
        Button::White | Button::WhiteSelected => (PaletteColor::White, PaletteColor::Black),
        Button::Black | Button::BlackSelected => (PaletteColor::Black, PaletteColor::White),
        Button::Red | Button::RedSelected => (PaletteColor::Red, PaletteColor::Black),
        Button::Orange | Button::OrangeSelected => (PaletteColor::Orange, PaletteColor::Black),
        Button::Yellow | Button::YellowSelected => (PaletteColor::Yellow, PaletteColor::Black),
        Button::Green | Button::GreenSelected => (PaletteColor::Green, PaletteColor::Black),
        Button::Blue => (PaletteColor::Blue, PaletteColor::White),
        Button::Gray => (PaletteColor::Gray, PaletteColor::Black),
        Button::LightGray => (PaletteColor::LightGray, PaletteColor::Black),
    }
}

/// Only the selected variants carry a visible border.
pub open spec fn spec_button_selected(b: Button) -> bool {
    match b {
        Button::WhiteSelected
        | Button::BlackSelected
        | Button::RedSelected
        | Button::OrangeSelected
        | Button::YellowSelected
        | Button::GreenSelected => true,
        _ => false,
    }
}

pub open spec fn spec_active(b: Button) -> ButtonStyle {
    ButtonStyle {
        background: spec_button_colors(b).0,
        background_dimmed: false,
        text: spec_button_colors(b).1,
        border: PaletteColor::BorderBlue,
        border_visible: spec_button_selected(b),
    }
}

pub open spec fn spec_pressed(b: Button) -> ButtonStyle {
    ButtonStyle { background_dimmed: true, ..spec_active(b) }
}

pub open spec fn spec_disabled(b: Button) -> ButtonStyle {
    ButtonStyle {
        background: PaletteColor::WindowBackground,
        background_dimmed: false,
        text: PaletteColor::Gray,
        border: PaletteColor::Gray,
        border_visible: true,
    }
}

impl Button {
    /// The style of the button at rest: its own background and text colors,
    /// with a border on the selected variants only.
    pub fn active(&self) -> (s: ButtonStyle)
        ensures
            s == spec_active(*self),
    {
        let (background, text) = match self {
            Button::White | Button::WhiteSelected => (PaletteColor::White, PaletteColor::Black),
            Button::Black | Button::BlackSelected => (PaletteColor::Black, PaletteColor::White),
            Button::Red | Button::RedSelected => (PaletteColor::Red, PaletteColor::Black),
            Button::Orange | Button::OrangeSelected => (PaletteColor::Orange, PaletteColor::Black),
            Button::Yellow | Button::YellowSelected => (PaletteColor::Yellow, PaletteColor::Black),
            Button::Green | Button::GreenSelected => (PaletteColor::Green, PaletteColor::Black),
            Button::Blue => (PaletteColor::Blue, PaletteColor::White),
            Button::Gray => (PaletteColor::Gray, PaletteColor::Black),
            Button::LightGray => (PaletteColor::LightGray, PaletteColor::Black),
        };
        let border_visible = match self {
            Button::WhiteSelected
            | Button::BlackSelected
            | Button::RedSelected
            | Button::OrangeSelected
            | Button::YellowSelected
            | Button::GreenSelected => true,
            _ => false,
        };
        ButtonStyle {
            background,
            background_dimmed: false,
            text,
            border: PaletteColor::BorderBlue,
            border_visible,
        }
    }

    /// Hovering changes nothing: the hovered style equals the active one.
    pub fn hovered(&self) -> (s: ButtonStyle)
        ensures
            s == spec_active(*self),
    {
        self.active()
    }

    /// A pressed button darkens its background and keeps everything else.
    pub fn pressed(&self) -> (s: ButtonStyle)
        ensures
            s == spec_pressed(*self),
    {
        let mut s = self.active();
        s.background_dimmed = true;
        s
    }

    /// A disabled button fades into the window background behind a gray
    /// border and gray text, whatever its kind.
    pub fn disabled(&self) -> (s: ButtonStyle)
        ensures
            s == spec_disabled(*self),
    {
        ButtonStyle {
            background: PaletteColor::WindowBackground,
            background_dimmed: false,
            text: PaletteColor::Gray,
            border: PaletteColor::Gray,
            border_visible: true,
        }
    }
}

/// The kinds of containers the panel draws.
#[derive(Clone, Copy, Debug, PartialEq, Eq, Structural)]
pub enum Container {
    LightGray,
    Gray,
    Black,
    White,
    ScrollBar,
    Disabled,
}

/// A plain filled container: the given background and text, no border.
pub open spec fn spec_cont_style(bkgnd: PaletteColor, text: PaletteColor) -> ContainerStyle {
    ContainerStyle {
        text,
        background: Some(bkgnd),
        border: PaletteColor::BorderBlue,
        border_visible: false,
    }
}

pub open spec fn spec_container_style(c: Container) -> ContainerStyle {
    match c {
        Container::LightGray => spec_cont_style(PaletteColor::LightGray, PaletteColor::Black),
        Container::Gray => spec_cont_style(PaletteColor::Gray, PaletteColor::Black),
        Container::Black => spec_cont_style(PaletteColor::Black, PaletteColor::White),
        Container::White => spec_cont_style(PaletteColor::White, PaletteColor::Black),
        Container::ScrollBar => spec_cont_style(
            PaletteColor::WindowBackground,
            PaletteColor::Black,
        ),
        Container::Disabled => ContainerStyle {
            text: PaletteColor::Gray,
            background: None,
            border: PaletteColor::Gray,
            border_visible: true,
        },
    }
}

/// A plain filled container: exactly [`spec_cont_style`].
pub fn cont_style(bkgnd: PaletteColor, text: PaletteColor) -> (s: ContainerStyle)
    ensures
        s == spec_cont_style(bkgnd, text),
{
    ContainerStyle {
        text,
        background: Some(bkgnd),
        border: PaletteColor::BorderBlue,
        border_visible: false,
    }
}

impl Container {
    /// The style of this container kind: exactly [`spec_container_style`].
    pub fn style(&self) -> (s: ContainerStyle)
        ensures
            s == spec_container_style(*self),
    {
        match self {
            Container::LightGray => cont_style(PaletteColor::LightGray, PaletteColor::Black),
            Container::Gray => cont_style(PaletteColor::Gray, PaletteColor::Black),
            Container::Black => cont_style(PaletteColor::Black, PaletteColor::White),
            Container::White => cont_style(PaletteColor::White, PaletteColor::Black),
            Container::ScrollBar => cont_style(
                PaletteColor::WindowBackground,
                PaletteColor::Black,
            ),
            Container::Disabled => ContainerStyle {
                text: PaletteColor::Gray,
                background: None,
                border: PaletteColor::Gray,
                border_visible: true,
            },
        }
    }
}

} // verus!
