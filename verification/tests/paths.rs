use panel_grid::config::config_file_path;
use panel_grid::config::style_file_path;

#[test]
fn config_path_is_under_the_given_home() {
    assert_eq!(
        config_file_path("/home/someone"),
        "/home/someone/.config/gtk-hello/config.json"
    );
}

#[test]
fn style_path_is_under_the_given_home() {
    assert_eq!(
        style_file_path("/tmp/test-home"),
        "/tmp/test-home/.config/gtk-hello/style.css"
    );
}
