use uad_ng::gui::style::{
    Border, Button, ButtonStatus, ButtonStyle, CheckBox, CheckBoxStatus, CheckBoxStyle, Container,
    ContainerStyle, Paint, Rgba, Scrollable, Text, TextStyle, Tone,
};

fn plain(tone: Tone) -> Paint {
    Paint { tone, alpha: None }
}

fn faded(tone: Tone, alpha: u8) -> Paint {
    Paint { tone, alpha: Some(alpha) }
}

fn outline(color: Tone, width: u8, radius: u8) -> Border {
    Border { color, alpha: None, width, radius }
}

const BUTTONS: [Button; 8] = [
    Button::Primary,
    Button::Unavailable,
    Button::SelfUpdate,
    Button::UninstallPackage,
    Button::RestorePackage,
    Button::NormalPackage,
    Button::SelectedPackage,
    Button::Hidden,
];

#[test]
fn default_kinds_are_the_plain_ones() {
    assert_eq!(Container::default(), Container::Invisible);
    assert_eq!(Button::default(), Button::Primary);
    assert_eq!(Scrollable::default(), Scrollable::Description);
    assert_eq!(CheckBox::default(), CheckBox::PackageEnabled);
    assert_eq!(Text::default(), Text::Default);
    assert_eq!(Container::get_default_style(), Container::Invisible.get_style());
    assert_eq!(
        Button::get_default_style(ButtonStatus::Hovered),
        Button::Primary.get_style(ButtonStatus::Hovered)
    );
}

#[test]
fn containers_by_kind() {
    assert_eq!(
        Container::Invisible.get_style(),
        ContainerStyle { background: None, text: None, border: outline(Tone::Transparent, 0, 0) }
    );
    assert_eq!(
        Container::Frame.get_style(),
        ContainerStyle {
            background: Some(Tone::StrongBackground),
            text: Some(Tone::StrongText),
            border: outline(Tone::Transparent, 0, 5),
        }
    );
    assert_eq!(Container::BorderedFrame.get_style().border, outline(Tone::Danger, 1, 5));
    assert_eq!(Container::Tooltip.get_style().border, outline(Tone::Primary, 1, 8));
    assert_eq!(
        Container::Background.get_style(),
        ContainerStyle {
            background: Some(Tone::Background),
            text: Some(Tone::Text),
            border: outline(Tone::Transparent, 0, 5),
        }
    );
}

#[test]
fn buttons_left_alone() {
    let accented = |accent: Tone| ButtonStyle {
        background: plain(Tone::StrongBackground),
        text: plain(accent),
        border: Border { color: accent, alpha: Some(50), width: 1, radius: 2 },
    };
    assert_eq!(Button::Primary.get_style(ButtonStatus::Active), accented(Tone::Primary));
    assert_eq!(Button::SelfUpdate.get_style(ButtonStatus::Active), accented(Tone::Primary));
    assert_eq!(Button::Unavailable.get_style(ButtonStatus::Active), accented(Tone::Danger));
    assert_eq!(Button::UninstallPackage.get_style(ButtonStatus::Active), accented(Tone::Danger));
    assert_eq!(Button::RestorePackage.get_style(ButtonStatus::Active), accented(Tone::Secondary));
    assert_eq!(
        Button::NormalPackage.get_style(ButtonStatus::Active),
        ButtonStyle {
            background: plain(Tone::StrongBackground),
            text: plain(Tone::StrongText),
            border: outline(Tone::Background, 0, 5),
        }
    );
    assert_eq!(
        Button::SelectedPackage.get_style(ButtonStatus::Active),
        ButtonStyle {
            background: faded(Tone::Primary, 25),
            text: plain(Tone::Primary),
            border: outline(Tone::Primary, 0, 5),
        }
    );
    assert_eq!(
        Button::Hidden.get_style(ButtonStatus::Active),
        ButtonStyle {
            background: plain(Tone::Transparent),
            text: plain(Tone::Transparent),
            border: outline(Tone::Transparent, 0, 5),
        }
    );
}

#[test]
fn pressed_button_looks_like_one_left_alone() {
    for kind in BUTTONS {
        assert_eq!(kind.get_style(ButtonStatus::Pressed), kind.get_style(ButtonStatus::Active));
    }
}

#[test]
fn pointer_changes_the_background_only() {
    let accents = [
        Tone::Primary,
        Tone::Danger,
        Tone::Primary,
        Tone::Danger,
        Tone::Secondary,
        Tone::Primary,
        Tone::Primary,
        Tone::Transparent,
    ];
    for (kind, accent) in BUTTONS.iter().zip(accents) {
        let active = kind.get_style(ButtonStatus::Active);
        let hovered = kind.get_style(ButtonStatus::Hovered);
        assert_eq!(hovered.background, faded(accent, 25));
        assert_eq!(hovered.text, active.text);
        assert_eq!(hovered.border, active.border);
    }
}

#[test]
fn buttons_that_cannot_be_pressed_fade() {
    for kind in [Button::Primary, Button::RestorePackage, Button::UninstallPackage] {
        let accent = if kind == Button::UninstallPackage { Tone::Danger } else { Tone::Primary };
        let disabled = kind.get_style(ButtonStatus::Disabled);
        assert_eq!(disabled.background, faded(accent, 5));
        assert_eq!(disabled.text, faded(accent, 50));
        assert_eq!(disabled.border, kind.get_style(ButtonStatus::Active).border);
    }
    for kind in [
        Button::Unavailable,
        Button::SelfUpdate,
        Button::NormalPackage,
        Button::SelectedPackage,
        Button::Hidden,
    ] {
        assert_eq!(kind.get_style(ButtonStatus::Disabled), kind.get_style(ButtonStatus::Active));
    }
}

#[test]
fn scrollers_by_kind() {
    let description = Scrollable::Description.get_style();
    let packages = Scrollable::Packages.get_style();
    assert_eq!(description.scroller, Tone::WeakBackground);
    assert_eq!(packages.scroller, Tone::StrongBackground);
    for style in [description, packages] {
        assert_eq!(style.rail, Tone::Transparent);
        assert_eq!(style.rail_border, outline(Tone::Transparent, 1, 5));
        assert_eq!(style.scroller_border, outline(Tone::Transparent, 1, 5));
    }
}

#[test]
fn checkboxes_by_kind_and_status() {
    let active = CheckBoxStatus::Active { is_checked: true };
    assert_eq!(
        CheckBox::PackageEnabled.get_style(active),
        CheckBoxStyle {
            background: plain(Tone::Background),
            icon: Tone::Primary,
            border: outline(Tone::Background, 1, 5),
            text: Some(Tone::Text),
        }
    );
    assert_eq!(
        CheckBox::PackageDisabled.get_style(active),
        CheckBoxStyle {
            background: faded(Tone::Background, 55),
            icon: Tone::Primary,
            border: outline(Tone::Primary, 1, 5),
            text: Some(Tone::Primary),
        }
    );
    assert_eq!(
        CheckBox::SettingsEnabled.get_style(active),
        CheckBoxStyle {
            background: plain(Tone::Background),
            icon: Tone::Primary,
            border: outline(Tone::Primary, 1, 5),
            text: Some(Tone::Text),
        }
    );
    assert_eq!(
        CheckBox::SettingsDisabled.get_style(active),
        CheckBoxStyle {
            background: plain(Tone::StrongBackground),
            icon: Tone::Primary,
            border: outline(Tone::Primary, 1, 5),
            text: Some(Tone::Text),
        }
    );
    let hovered = CheckBoxStyle {
        background: plain(Tone::WeakBackground),
        icon: Tone::Primary,
        border: outline(Tone::Primary, 2, 5),
        text: Some(Tone::WeakText),
    };
    for kind in [
        CheckBox::PackageEnabled,
        CheckBox::PackageDisabled,
        CheckBox::SettingsEnabled,
        CheckBox::SettingsDisabled,
    ] {
        for checked in [false, true] {
            assert_eq!(kind.get_style(CheckBoxStatus::Hovered { is_checked: checked }), hovered);
            assert_eq!(
                kind.get_style(CheckBoxStatus::Disabled { is_checked: checked }),
                kind.get_style(active)
            );
            assert_eq!(
                kind.get_style(CheckBoxStatus::Active { is_checked: checked }),
                kind.get_style(active)
            );
        }
    }
}

#[test]
fn texts_by_kind() {
    assert_eq!(Text::Default.get_style(), TextStyle::Inherited);
    assert_eq!(Text::Okay.get_style(), TextStyle::Themed(Tone::SecondaryText));
    assert_eq!(Text::Danger.get_style(), TextStyle::Themed(Tone::Danger));
    assert_eq!(Text::Commentary.get_style(), TextStyle::Themed(Tone::Text));
    let red = Rgba { red: 255, green: 0, blue: 0, alpha: 255 };
    assert_eq!(Text::Color(red).get_style(), TextStyle::Fixed(red));
}
