//! The style sheet: what each kind of widget looks like, told in the
//! colours of whatever theme is in use. Alpha is in hundredths, widths and
//! radii are in pixels.

use vstd::prelude::*;

verus! {

/// A colour of the theme.
#[derive(Debug, Clone, Copy, PartialEq, Eq, Structural)]
pub enum Tone {
    Transparent,
    Primary,
    Danger,
    Background,
    Text,
    StrongBackground,
    StrongText,
    WeakBackground,
    WeakText,
    Secondary,
    SecondaryText,
}

/// A colour of the theme, with its alpha replaced where `alpha` is given.
#[derive(Debug, Clone, Copy, PartialEq, Eq, Structural)]
pub struct Paint {
    pub tone: Tone,
    pub alpha: Option<u8>,
}

/// The outline of a widget.
#[derive(Debug, Clone, Copy, PartialEq, Eq, Structural)]
pub struct Border {
    pub color: Tone,
    pub alpha: Option<u8>,
    pub width: u8,
    pub radius: u8,
}

/// `tone` as the theme has it.
pub open spec fn plain(tone: Tone) -> Paint {
    Paint { tone, alpha: None }
}

/// `tone` at `alpha` hundredths.
pub open spec fn faded(tone: Tone, alpha: u8) -> Paint {
    Paint { tone, alpha: Some(alpha) }
}

/// An outline in `color` as the theme has it.
pub open spec fn outline(color: Tone, width: u8, radius: u8) -> Border {
    Border { color, alpha: None, width, radius }
}

/// The look of a container. A colour that is not given is inherited.
#[derive(Debug, Clone, Copy, PartialEq, Eq, Structural)]
pub struct ContainerStyle {
    pub background: Option<Tone>,
    pub text: Option<Tone>,
    pub border: Border,
}

/// The kinds of container.
#[derive(Debug, Clone, Copy, PartialEq, Eq, Structural)]
pub enum Container {
    Invisible,
    Frame,
    BorderedFrame,
    Tooltip,
    Background,
}

/// What a container of this kind looks like.
pub open spec fn container_style(kind: Container) -> ContainerStyle {
    match kind {
        Container::Invisible => ContainerStyle {
            background: None,
            text: None,
            border: outline(Tone::Transparent, 0, 0),
        },
        Container::Frame => ContainerStyle {
            background: Some(Tone::StrongBackground),
            text: Some(Tone::StrongText),
            border: outline(Tone::Transparent, 0, 5),
        },
        Container::BorderedFrame => ContainerStyle {
            background: Some(Tone::StrongBackground),
            text: Some(Tone::StrongText),
            border: outline(Tone::Danger, 1, 5),
        },
        Container::Tooltip => ContainerStyle {
            background: Some(Tone::StrongBackground),
            text: Some(Tone::StrongText),
            border: outline(Tone::Primary, 1, 8),
        },
        Container::Background => ContainerStyle {
            background: Some(Tone::Background),
            text: Some(Tone::Text),
            border: outline(Tone::Transparent, 0, 5),
        },
    }
}

impl Default for Container {
    fn default() -> (kind: Container)
        ensures
            kind == Container::Invisible,
    {
        Container::Invisible
    }
}

impl Container {
    /// The look of a container of no particular kind.
    pub fn get_default_style() -> (style: ContainerStyle)
        ensures
            style == container_style(Container::Invisible),
    {
        Container::Invisible.get_style()
    }

    /// The look of a container of this kind.
    pub fn get_style(&self) -> (style: ContainerStyle)
        ensures
            style == container_style(*self),
    {
        let frame = ContainerStyle {
            background: Some(Tone::StrongBackground),
            text: Some(Tone::StrongText),
            border: Border { color: Tone::Transparent, alpha: None, width: 0, radius: 5 },
        };
        match self {
            Container::Invisible => ContainerStyle {
                background: None,
                text: None,
                border: Border { color: Tone::Transparent, alpha: None, width: 0, radius: 0 },
            },
            Container::Frame => frame,
            Container::BorderedFrame => ContainerStyle {
                border: Border { color: Tone::Danger, alpha: None, width: 1, radius: 5 },
                ..frame
            },
            Container::Tooltip => ContainerStyle {
                border: Border { color: Tone::Primary, alpha: None, width: 1, radius: 8 },
                ..frame
            },
            Container::Background => ContainerStyle {
                background: Some(Tone::Background),
                text: Some(Tone::Text),
                ..frame
            },
        }
    }
}

/// What the user is doing with a button.
#[derive(Debug, Clone, Copy, PartialEq, Eq, Structural)]
pub enum ButtonStatus {
    Active,
    Hovered,
    Pressed,
    Disabled,
}

/// The look of a button.
#[derive(Debug, Clone, Copy, PartialEq, Eq, Structural)]
pub struct ButtonStyle {
    pub background: Paint,
    pub text: Paint,
    pub border: Border,
}

/// The kinds of button.
#[derive(Debug, Clone, Copy, PartialEq, Eq, Structural)]
pub enum Button {
    Primary,
    Unavailable,
    SelfUpdate,
    UninstallPackage,
    RestorePackage,
    NormalPackage,
    SelectedPackage,
    Hidden,
}

/// The colour that a button of this kind is told by.
pub open spec fn button_accent(kind: Button) -> Tone {
    match kind {
        Button::Primary | Button::SelfUpdate | Button::NormalPackage | Button::SelectedPackage => {
            Tone::Primary
        },
        Button::Unavailable | Button::UninstallPackage => Tone::Danger,
        Button::RestorePackage => Tone::Secondary,
        Button::Hidden => Tone::Transparent,
    }
}

/// A button that is written and outlined in `accent`.
pub open spec fn accented(accent: Tone) -> ButtonStyle {
    ButtonStyle {
        background: plain(Tone::StrongBackground),
        text: plain(accent),
        border: Border { color: accent, alpha: Some(50), width: 1, radius: 2 },
    }
}

/// What a button of this kind looks like when nothing is done with it.
pub open spec fn button_active(kind: Button) -> ButtonStyle {
    match kind {
        Button::Primary | Button::SelfUpdate | Button::Unavailable | Button::UninstallPackage
        | Button::RestorePackage => accented(button_accent(kind)),
        Button::NormalPackage => ButtonStyle {
            background: plain(Tone::StrongBackground),
            text: plain(Tone::StrongText),
            border: outline(Tone::Background, 0, 5),
        },
        Button::SelectedPackage => ButtonStyle {
            background: faded(Tone::Primary, 25),
            text: plain(Tone::Primary),
            border: outline(Tone::Primary, 0, 5),
        },
        Button::Hidden => ButtonStyle {
            background: plain(Tone::Transparent),
            text: plain(Tone::Transparent),
            border: outline(Tone::Transparent, 0, 5),
        },
    }
}

/// What a button of this kind looks like under the pointer: as when
/// nothing is done with it, on a background of its accent at a quarter.
pub open spec fn button_hovered(kind: Button) -> ButtonStyle {
    ButtonStyle { background: faded(button_accent(kind), 25), ..button_active(kind) }
}

/// The colour that a button of this kind fades to when it cannot be
/// pressed, for the kinds that fade.
pub open spec fn button_disabled_accent(kind: Button) -> Option<Tone> {
    match kind {
        Button::RestorePackage | Button::Primary => Some(Tone::Primary),
        Button::UninstallPackage => Some(Tone::Danger),
        _ => None,
    }
}

/// What a button of this kind looks like when it cannot be pressed.
pub open spec fn button_disabled(kind: Button) -> ButtonStyle {
    match button_disabled_accent(kind) {
        Some(accent) => ButtonStyle {
            background: faded(accent, 5),
            text: faded(accent, 50),
            ..button_active(kind)
        },
        None => button_active(kind),
    }
}

/// What a button of this kind looks like in this status. A pressed button
/// looks like one that nothing is done with.
pub open spec fn button_style(kind: Button, status: ButtonStatus) -> ButtonStyle {
    match status {
        ButtonStatus::Active | ButtonStatus::Pressed => button_active(kind),
        ButtonStatus::Hovered => button_hovered(kind),
        ButtonStatus::Disabled => button_disabled(kind),
    }
}

impl Default for Button {
    fn default() -> (kind: Button)
        ensures
            kind == Button::Primary,
    {
        Button::Primary
    }
}

impl Button {
    /// The look of a button of no particular kind.
    pub fn get_default_style(status: ButtonStatus) -> (style: ButtonStyle)
        ensures
            style == button_style(Button::Primary, status),
    {
        Button::Primary.get_style(status)
    }

    /// The look of a button of this kind in this status.
    pub fn get_style(&self, status: ButtonStatus) -> (style: ButtonStyle)
        ensures
            style == button_style(*self, status),
    {
        match status {
            ButtonStatus::Active => self.get_active_style(),
            ButtonStatus::Hovered => self.get_hovered_style(),
            ButtonStatus::Pressed => self.get_active_style(),
            ButtonStatus::Disabled => self.get_disabled_style(),
        }
    }

    fn accent(&self) -> (accent: Tone)
        ensures
            accent == button_accent(*self),
    {
        match self {
            Button::Primary | Button::SelfUpdate | Button::NormalPackage
            | Button::SelectedPackage => Tone::Primary,
            Button::Unavailable | Button::UninstallPackage => Tone::Danger,
            Button::RestorePackage => Tone::Secondary,
            Button::Hidden => Tone::Transparent,
        }
    }

    fn get_active_style(&self) -> (style: ButtonStyle)
        ensures
            style == button_active(*self),
    {
        match self {
            Button::NormalPackage => ButtonStyle {
                background: Paint { tone: Tone::StrongBackground, alpha: None },
                text: Paint { tone: Tone::StrongText, alpha: None },
                border: Border { color: Tone::Background, alpha: None, width: 0, radius: 5 },
            },
            Button::SelectedPackage => ButtonStyle {
                background: Paint { tone: Tone::Primary, alpha: Some(25) },
                text: Paint { tone: Tone::Primary, alpha: None },
                border: Border { color: Tone::Primary, alpha: None, width: 0, radius: 5 },
            },
            Button::Hidden => ButtonStyle {
                background: Paint { tone: Tone::Transparent, alpha: None },
                text: Paint { tone: Tone::Transparent, alpha: None },
                border: Border { color: Tone::Transparent, alpha: None, width: 0, radius: 5 },
            },
            _ => {
                let accent = self.accent();
                ButtonStyle {
                    background: Paint { tone: Tone::StrongBackground, alpha: None },
                    text: Paint { tone: accent, alpha: None },
                    border: Border { color: accent, alpha: Some(50), width: 1, radius: 2 },
                }
            },
        }
    }

    fn get_hovered_style(&self) -> (style: ButtonStyle)
        ensures
            style == button_hovered(*self),
    {
        let active = self.get_active_style();
        ButtonStyle { background: Paint { tone: self.accent(), alpha: Some(25) }, ..active }
    }

    fn get_disabled_style(&self) -> (style: ButtonStyle)
        ensures
            style == button_disabled(*self),
    {
        let active = self.get_active_style();
        let accent = match self {
            Button::RestorePackage | Button::Primary => Some(Tone::Primary),
            Button::UninstallPackage => Some(Tone::Danger),
            _ => None,
        };
        match accent {
            Some(tone) => ButtonStyle {
                background: Paint { tone, alpha: Some(5) },
                text: Paint { tone, alpha: Some(50) },
                ..active
            },
            None => active,
        }
    }
}

/// The look of a scrollable: of its rails and of the scrollers on them.
#[derive(Debug, Clone, Copy, PartialEq, Eq, Structural)]
pub struct ScrollableStyle {
    pub rail: Tone,
    pub rail_border: Border,
    pub scroller: Tone,
    pub scroller_border: Border,
}

/// The kinds of scrollable.
#[derive(Debug, Clone, Copy, PartialEq, Eq, Structural)]
pub enum Scrollable {
    Description,
    Packages,
}

/// What a scrollable of this kind looks like, in every status.
pub open spec fn scrollable_style(kind: Scrollable) -> ScrollableStyle {
    ScrollableStyle {
        rail: Tone::Transparent,
        rail_border: outline(Tone::Transparent, 1, 5),
        scroller: match kind {
            Scrollable::Description => Tone::WeakBackground,
            Scrollable::Packages => Tone::StrongBackground,
        },
        scroller_border: outline(Tone::Transparent, 1, 5),
    }
}

impl Default for Scrollable {
    fn default() -> (kind: Scrollable)
        ensures
            kind == Scrollable::Description,
    {
        Scrollable::Description
    }
}

impl Scrollable {
    /// The look of a scrollable of this kind.
    pub fn get_style(&self) -> (style: ScrollableStyle)
        ensures
            style == scrollable_style(*self),
    {
        let hairline = Border { color: Tone::Transparent, alpha: None, width: 1, radius: 5 };
        let scroller = match self {
            Scrollable::Description => Tone::WeakBackground,
            Scrollable::Packages => Tone::StrongBackground,
        };
        ScrollableStyle {
            rail: Tone::Transparent,
            rail_border: hairline,
            scroller,
            scroller_border: hairline,
        }
    }
}

/// What the user is doing with a checkbox.
#[derive(Debug, Clone, Copy, PartialEq, Eq, Structural)]
pub enum CheckBoxStatus {
    Active { is_checked: bool },
    Hovered { is_checked: bool },
    Disabled { is_checked: bool },
}

/// The look of a checkbox. A text colour that is not given is inherited.
#[derive(Debug, Clone, Copy, PartialEq, Eq, Structural)]
pub struct CheckBoxStyle {
    pub background: Paint,
    pub icon: Tone,
    pub border: Border,
    pub text: Option<Tone>,
}

/// The kinds of checkbox.
#[derive(Debug, Clone, Copy, PartialEq, Eq, Structural)]
pub enum CheckBox {
    PackageEnabled,
    PackageDisabled,
    SettingsEnabled,
    SettingsDisabled,
}

/// What a checkbox of this kind looks like away from the pointer.
pub open spec fn checkbox_active(kind: CheckBox) -> CheckBoxStyle {
    match kind {
        CheckBox::PackageEnabled => CheckBoxStyle {
            background: plain(Tone::Background),
            icon: Tone::Primary,
            border: outline(Tone::Background, 1, 5),
            text: Some(Tone::Text),
        },
        CheckBox::PackageDisabled => CheckBoxStyle {
            background: faded(Tone::Background, 55),
            icon: Tone::Primary,
            border: outline(Tone::Primary, 1, 5),
            text: Some(Tone::Primary),
        },
        CheckBox::SettingsEnabled => CheckBoxStyle {
            background: plain(Tone::Background),
            icon: Tone::Primary,
            border: outline(Tone::Primary, 1, 5),
            text: Some(Tone::Text),
        },
        CheckBox::SettingsDisabled => CheckBoxStyle {
            background: plain(Tone::StrongBackground),
            icon: Tone::Primary,
            border: outline(Tone::Primary, 1, 5),
            text: Some(Tone::Text),
        },
    }
}

/// What any checkbox looks like under the pointer.
pub open spec fn checkbox_hovered() -> CheckBoxStyle {
    CheckBoxStyle {
        background: plain(Tone::WeakBackground),
        icon: Tone::Primary,
        border: outline(Tone::Primary, 2, 5),
        text: Some(Tone::WeakText),
    }
}

/// What a checkbox of this kind looks like in this status. Whether it is
/// checked makes no difference, and one that cannot be toggled looks like
/// one that can.
pub open spec fn checkbox_style(kind: CheckBox, status: CheckBoxStatus) -> CheckBoxStyle {
    match status {
        CheckBoxStatus::Hovered { .. } => checkbox_hovered(),
        _ => checkbox_active(kind),
    }
}

impl Default for CheckBox {
    fn default() -> (kind: CheckBox)
        ensures
            kind == CheckBox::PackageEnabled,
    {
        CheckBox::PackageEnabled
    }
}

impl CheckBox {
    /// The look of a checkbox of this kind in this status.
    pub fn get_style(&self, status: CheckBoxStatus) -> (style: CheckBoxStyle)
        ensures
            style == checkbox_style(*self, status),
    {
        match status {
            CheckBoxStatus::Active { is_checked } => self.get_active_style(is_checked),
            CheckBoxStatus::Hovered { is_checked: _ } => CheckBoxStyle {
                background: Paint { tone: Tone::WeakBackground, alpha: None },
                icon: Tone::Primary,
                border: Border { color: Tone::Primary, alpha: None, width: 2, radius: 5 },
                text: Some(Tone::WeakText),
            },
            CheckBoxStatus::Disabled { is_checked } => self.get_active_style(is_checked),
        }
    }

    fn get_active_style(&self, _is_checked: bool) -> (style: CheckBoxStyle)
        ensures
            style == checkbox_active(*self),
    {
        let settings = CheckBoxStyle {
            background: Paint { tone: Tone::Background, alpha: None },
            icon: Tone::Primary,
            border: Border { color: Tone::Primary, alpha: None, width: 1, radius: 5 },
            text: Some(Tone::Text),
        };
        match self {
            CheckBox::PackageEnabled => CheckBoxStyle {
                border: Border { color: Tone::Background, alpha: None, width: 1, radius: 5 },
                ..settings
            },
            CheckBox::PackageDisabled => CheckBoxStyle {
                background: Paint { tone: Tone::Background, alpha: Some(55) },
                text: Some(Tone::Primary),
                ..settings
            },
            CheckBox::SettingsEnabled => settings,
            CheckBox::SettingsDisabled => CheckBoxStyle {
                background: Paint { tone: Tone::StrongBackground, alpha: None },
                ..settings
            },
        }
    }
}

/// A colour by its parts, each from 0 to 255.
#[derive(Debug, Clone, Copy, PartialEq, Eq, Structural)]
pub struct Rgba {
    pub red: u8,
    pub green: u8,
    pub blue: u8,
    pub alpha: u8,
}

/// The colour of a text.
#[derive(Debug, Clone, Copy, PartialEq, Eq, Structural)]
pub enum TextStyle {
    /// The colour of what is around the text.
    Inherited,
    /// A colour of the theme.
    Themed(Tone),
    /// This colour, whatever the theme.
    Fixed(Rgba),
}

/// The kinds of text.
#[derive(Debug, Clone, Copy, PartialEq, Eq, Structural)]
pub enum Text {
    Default,
    Okay,
    Danger,
    Commentary,
    Color(Rgba),
}

/// What a text of this kind looks like.
pub open spec fn text_style(kind: Text) -> TextStyle {
    match kind {
        Text::Default => TextStyle::Inherited,
        Text::Okay => TextStyle::Themed(Tone::SecondaryText),
        Text::Danger => TextStyle::Themed(Tone::Danger),
        Text::Commentary => TextStyle::Themed(Tone::Text),
        Text::Color(color) => TextStyle::Fixed(color),
    }
}

impl Default for Text {
    fn default() -> (kind: Text)
        ensures
            kind == Text::Default,
    {
        Text::Default
    }
}

impl Text {
    /// The look of a text of this kind.
    pub fn get_style(&self) -> (style: TextStyle)
        ensures
            style == text_style(*self),
    {
        match self {
            Text::Default => TextStyle::Inherited,
            Text::Okay => TextStyle::Themed(Tone::SecondaryText),
            Text::Danger => TextStyle::Themed(Tone::Danger),
            Text::Commentary => TextStyle::Themed(Tone::Text),
            Text::Color(color) => TextStyle::Fixed(*color),
        }
    }
}

/// The pointer changes the background of a button and nothing else, and a
/// button that cannot be pressed keeps the outline of one that can.
pub proof fn lemma_button_status_keeps_outline(kind: Button, status: ButtonStatus)
    ensures
        button_style(kind, status).border == button_active(kind).border,
        status != ButtonStatus::Disabled ==> button_style(kind, status).text == button_active(
            kind,
        ).text,
        button_style(kind, ButtonStatus::Pressed) == button_style(kind, ButtonStatus::Active),
{
}

/// A hidden button shows nothing while it is left alone: background, text
/// and outline are transparent, whether it can be pressed or not.
pub proof fn lemma_hidden_button_is_transparent(status: ButtonStatus)
    requires
        status != ButtonStatus::Hovered,
    ensures
        button_style(Button::Hidden, status).background == plain(Tone::Transparent),
        button_style(Button::Hidden, status).text == plain(Tone::Transparent),
        button_style(Button::Hidden, status).border.color == Tone::Transparent,
{
}

/// Every frame that has a background has the text colour that goes with
/// it, and corners rounded at five pixels or more.
pub proof fn lemma_frames_are_readable(kind: Container)
    ensures
        container_style(kind).background == Some(Tone::StrongBackground) ==> container_style(
            kind,
        ).text == Some(Tone::StrongText),
        container_style(kind).background == Some(Tone::Background) ==> container_style(kind).text
            == Some(Tone::Text),
        container_style(kind).background is Some ==> container_style(kind).border.radius >= 5,
        container_style(kind).background is None ==> container_style(kind).text is None,
{
}

} // verus!
