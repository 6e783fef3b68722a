use termipet::commands::StatColor;
use termipet::get_stat_color;

#[test]
fn test_get_stat_color_green() {
    // Given: stat value >= 70
    let color = get_stat_color(80);

    // Then: should return green
    assert_eq!(color, StatColor::Green);
}

#[test]
fn test_get_stat_color_yellow() {
    // Given: stat value between 40-69
    let color = get_stat_color(50);

    // Then: should return yellow
    assert_eq!(color, StatColor::Yellow);
}

#[test]
fn test_get_stat_color_red() {
    // Given: stat value < 40
    let color = get_stat_color(30);

    // Then: should return red
    assert_eq!(color, StatColor::Red);
}

#[test]
fn test_stat_color_boundaries() {
    // Test boundary conditions
    assert_eq!(get_stat_color(70), StatColor::Green);
    assert_eq!(get_stat_color(69), StatColor::Yellow);
    assert_eq!(get_stat_color(40), StatColor::Yellow);
    assert_eq!(get_stat_color(39), StatColor::Red);
    assert_eq!(get_stat_color(0), StatColor::Red);
    assert_eq!(get_stat_color(100), StatColor::Green);
}
