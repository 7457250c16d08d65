use dive_soft::theme::Theme;

#[test]
fn toggle_twice_restores() {
    for t in [Theme::Light, Theme::Dark] {
        assert_ne!(t.toggled(), t);
        assert_eq!(t.toggled().toggled(), t);
    }
    assert_eq!(Theme::Light.toggled(), Theme::Dark);
}

#[test]
fn light_colours() {
    let t = Theme::Light;
    assert_eq!(t.page_background(), "rgb(233, 233, 233)");
    assert_eq!(t.card_background(), "white");
    assert_eq!(t.card_text_color(), "rgb(23, 23, 23)");
    assert_eq!(t.controller_text_color(), "#333");
    assert_eq!(t.idle_part_fill(), "black");
    assert_eq!(t.body_image(), "upper-body.svg");
    assert_eq!(t.sun_opacity(), 0);
    assert_eq!(t.moon_opacity(), 1);
}

#[test]
fn dark_colours() {
    let t = Theme::Dark;
    assert_eq!(t.page_background(), "rgb(30, 30, 30)");
    assert_eq!(t.card_background(), "rgb(23, 23, 23)");
    assert_eq!(t.card_text_color(), "white");
    assert_eq!(t.controller_text_color(), "white");
    assert_eq!(t.idle_part_fill(), "white");
    assert_eq!(t.body_image(), "upper-body-white.svg");
    assert_eq!(t.sun_opacity(), 1);
    assert_eq!(t.moon_opacity(), 0);
}
