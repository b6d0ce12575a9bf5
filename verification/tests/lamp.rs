use sump_monitor::lamp::{lamp_alert, lamp_greeting, lamp_off, lamp_on, Color, HueCommands};

fn on(light: u32, color: Color) -> HueCommands {
    HueCommands::On { light, bri: 255, color: Some(color) }
}

#[test]
fn test_lamp_alert() {
    assert_eq!(
        vec![
            on(5, Color::Blue),
            on(8, Color::Blue),
            HueCommands::Pause { millis: 500 },
            on(5, Color::Red),
            on(8, Color::Red),
            HueCommands::Pause { millis: 5_000 },
            HueCommands::Off { light: 5 },
            HueCommands::Off { light: 8 },
        ],
        lamp_alert()
    );
}

#[test]
fn test_lamp_on() {
    assert_eq!(vec![on(5, Color::Blue), on(8, Color::Blue)], lamp_on());
}

#[test]
fn test_lamp_greeting() {
    assert_eq!(
        vec![
            on(5, Color::Red),
            on(8, Color::Red),
            HueCommands::Pause { millis: 1_000 },
            on(5, Color::White),
            on(8, Color::White),
            HueCommands::Pause { millis: 1_000 },
            on(5, Color::Blue),
            on(8, Color::Blue),
            HueCommands::Pause { millis: 1_000 },
            HueCommands::Off { light: 5 },
            HueCommands::Off { light: 8 },
        ],
        lamp_greeting()
    );
}

fn shown(color: Color) -> Vec<HueCommands> {
    vec![
        on(5, color),
        on(8, color),
        HueCommands::Pause { millis: 5_000 },
        HueCommands::Off { light: 5 },
        HueCommands::Off { light: 8 },
    ]
}

#[test]
fn test_lamp_off_low_duty() {
    let dark = vec![HueCommands::Off { light: 5 }, HueCommands::Off { light: 8 }];

    assert_eq!(dark, lamp_off(Some(0)));
    assert_eq!(dark, lamp_off(Some(5)));
    assert_eq!(dark, lamp_off(Some(9)));
}

#[test]
fn test_lamp_off_caution() {
    assert_eq!(shown(Color::Yellow), lamp_off(Some(10)));
    assert_eq!(shown(Color::Yellow), lamp_off(Some(20)));
    assert_eq!(shown(Color::Yellow), lamp_off(Some(29)));
}

#[test]
fn test_lamp_off_alert() {
    assert_eq!(shown(Color::Red), lamp_off(Some(30)));
    assert_eq!(shown(Color::Red), lamp_off(Some(95)));
    assert_eq!(shown(Color::Red), lamp_off(Some(100)));
    assert_eq!(shown(Color::Red), lamp_off(Some(u64::MAX)));
}

#[test]
fn test_lamp_off_no_duty() {
    assert_eq!(shown(Color::Red), lamp_off(None));
}
