use void_launcher::theme::{compose_css, is_dark_theme_active, is_valid_hex_color, search_icon_path, Stylesheets};

fn sheets() -> Stylesheets {
    Stylesheets {
        base: "window { margin: 0; }".to_string(),
        back: "box {\n  background: #000000;\n  color: red;\n}".to_string(),
        dark: ":root {\n  --accent-color: #ffffff;\n  --select-color: #333333;\n}".to_string(),
        light: ":root {\n  --accent-color: #000000;\n  --select-color: #cccccc;\n}".to_string(),
    }
}

#[test]
fn hex_colors() {
    assert!(is_valid_hex_color("#a1B2c3"));
    assert!(!is_valid_hex_color("default"));
    assert!(!is_valid_hex_color("#12345"));
    assert!(!is_valid_hex_color("#1234567"));
    assert!(!is_valid_hex_color("#12345g"));
    assert!(!is_valid_hex_color("#123456\n"));
    assert!(!is_valid_hex_color("123456"));
}

#[test]
fn defaults_keep_the_sheets() {
    let css = compose_css(&sheets(), "default", "default", "default", None, true);
    assert_eq!(css, ":root {\n  --accent-color: #ffffff;\n  --select-color: #333333;\n}\nwindow { margin: 0; }");
}

#[test]
fn colours_override_their_lines() {
    let css = compose_css(&sheets(), "#123456", "#abcdef", "#ABCDEF", Some("label { }"), false);
    assert_eq!(
        css,
        ":root {\n  --accent-color: #abcdef;\n  --select-color: #ABCDEF;\n}\nwindow { margin: 0; }\nbox {\n  background: #123456;\n  color: red;\n}\nlabel { }"
    );
}

#[test]
fn invalid_colour_is_ignored() {
    let css = compose_css(&sheets(), "blue", "#abc", "default", None, false);
    assert_eq!(css, ":root {\n  --accent-color: #000000;\n  --select-color: #cccccc;\n}\nwindow { margin: 0; }");
}

#[test]
fn dark_theme_detection() {
    assert!(is_dark_theme_active(None));
    assert!(is_dark_theme_active(Some("Adwaita-dark")));
    assert!(!is_dark_theme_active(Some("Breeze-LIGHT")));
    assert!(!is_dark_theme_active(Some("Lightly")));
}

#[test]
fn search_icon_for_theme() {
    assert_eq!(search_icon_path(true), "/usr/share/void-launcher/icons/search-light.png");
    assert_eq!(search_icon_path(false), "/usr/share/void-launcher/icons/search-dark.png");
}
