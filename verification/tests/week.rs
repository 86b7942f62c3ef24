use scop::week::{WeekTemperatures, Weekday};

#[test]
fn test_get_temperature() {
    let mut week_temperatures = WeekTemperatures::new();

    assert_eq!(week_temperatures.get_temperature(Weekday::Monday), None);
    assert_eq!(week_temperatures.get_temperature(Weekday::Tuesday), None);
    assert_eq!(week_temperatures.get_temperature(Weekday::Wednesday), None);
    assert_eq!(week_temperatures.get_temperature(Weekday::Thursday), None);
    assert_eq!(week_temperatures.get_temperature(Weekday::Friday), None);
    assert_eq!(week_temperatures.get_temperature(Weekday::Saturday), None);
    assert_eq!(week_temperatures.get_temperature(Weekday::Sunday), None);

    week_temperatures.set_temperature(Weekday::Monday, 20);
    assert_eq!(week_temperatures.get_temperature(Weekday::Monday), Some(20));

    week_temperatures.set_temperature(Weekday::Monday, 25);
    assert_eq!(week_temperatures.get_temperature(Weekday::Monday), Some(25));

    week_temperatures.set_temperature(Weekday::Tuesday, 30);
    week_temperatures.set_temperature(Weekday::Wednesday, 35);
    week_temperatures.set_temperature(Weekday::Thursday, 40);
    week_temperatures.set_temperature(Weekday::Friday, 45);
    week_temperatures.set_temperature(Weekday::Saturday, 50);
    week_temperatures.set_temperature(Weekday::Sunday, 55);

    assert_eq!(week_temperatures.get_temperature(Weekday::Monday), Some(25));
    assert_eq!(
        week_temperatures.get_temperature(Weekday::Tuesday),
        Some(30)
    );
    assert_eq!(
        week_temperatures.get_temperature(Weekday::Wednesday),
        Some(35)
    );
    assert_eq!(
        week_temperatures.get_temperature(Weekday::Thursday),
        Some(40)
    );
    assert_eq!(week_temperatures.get_temperature(Weekday::Friday), Some(45));
    assert_eq!(
        week_temperatures.get_temperature(Weekday::Saturday),
        Some(50)
    );
    assert_eq!(week_temperatures.get_temperature(Weekday::Sunday), Some(55));
}

#[test]
fn setting_a_day_leaves_the_others() {
    let mut week = WeekTemperatures::new();
    week.set_temperature(Weekday::Wednesday, -7);
    assert_eq!(week.get_temperature(Weekday::Wednesday), Some(-7));
    assert_eq!(week.get_temperature(Weekday::Tuesday), None);
    assert_eq!(week.get_temperature(Weekday::Thursday), None);
    week.set_temperature(Weekday::Wednesday, i32::MIN);
    assert_eq!(week.get_temperature(Weekday::Wednesday), Some(i32::MIN));
}

#[test]
fn weekday_positions() {
    assert_eq!(Weekday::Monday.index(), 0);
    assert_eq!(Weekday::Thursday.index(), 3);
    assert_eq!(Weekday::Sunday.index(), 6);
}
