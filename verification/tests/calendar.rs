use espera::calendar::is_leap_year;
use espera::Month;
use espera::Weekday;
use std::str::FromStr;

const MONTHS: [Month; 12] = [
    Month::January,
    Month::February,
    Month::March,
    Month::April,
    Month::May,
    Month::June,
    Month::July,
    Month::August,
    Month::September,
    Month::October,
    Month::November,
    Month::December,
];

const WEEKDAYS: [Weekday; 7] = [
    Weekday::Monday,
    Weekday::Tuesday,
    Weekday::Wednesday,
    Weekday::Thursday,
    Weekday::Friday,
    Weekday::Saturday,
    Weekday::Sunday,
];

#[test]
fn months_have_their_days() {
    let days: Vec<u8> = MONTHS.iter().map(|m| m.days()).collect();
    assert_eq!(days, vec![31, 28, 31, 30, 31, 30, 31, 31, 30, 31, 30, 31]);
    assert_eq!(days.iter().map(|d| *d as u32).sum::<u32>(), 365);
    assert_eq!(Month::February.len(true), 29);
    assert_eq!(Month::February.len(false), 28);
    for m in MONTHS {
        if m != Month::February {
            assert_eq!(m.len(true), m.days());
        }
        assert_eq!(m.len(false), m.days());
    }
}

#[test]
fn months_follow_each_other() {
    for (i, m) in MONTHS.iter().enumerate() {
        assert_eq!(m.index() as usize, i);
        assert_eq!(u8::from(*m) as usize, i);
        assert_eq!(m.number() as usize, i + 1);
        assert_eq!(m.next(), MONTHS[(i + 1) % 12]);
        assert_eq!(m.previous(), MONTHS[(i + 11) % 12]);
        assert_eq!(m.next().previous(), *m);
        assert_eq!(Month::from_index(i as u8), Ok(*m));
        assert_eq!(Month::from_number(i as u8 + 1), Ok(*m));
    }
    assert_eq!(Month::December.next(), Month::January);
    assert_eq!(Month::January.previous(), Month::December);
}

#[test]
fn months_out_of_range_are_refused() {
    assert_eq!(Month::from_number(0), Err("The month number must be between 1 and 12."));
    assert_eq!(Month::from_number(13), Err("The month number must be between 1 and 12."));
    assert_eq!(Month::from_number(255), Err("The month number must be between 1 and 12."));
    assert_eq!(Month::from_index(12), Err("The month index must be between 0 and 11."));
    assert_eq!(Month::from_index(255), Err("The month index must be between 0 and 11."));
}

#[test]
fn months_have_their_names() {
    let names: Vec<&str> = MONTHS.iter().map(|m| m.name()).collect();
    assert_eq!(
        names,
        vec![
            "January", "February", "March", "April", "May", "June", "July", "August",
            "September", "October", "November", "December"
        ]
    );
    let abbr3: Vec<&str> = MONTHS.iter().map(|m| m.abbr3()).collect();
    assert_eq!(
        abbr3,
        vec!["Jan", "Feb", "Mar", "Apr", "May", "Jun", "Jul", "Aug", "Sep", "Oct", "Nov", "Dec"]
    );
    let abbr2: Vec<&str> = MONTHS.iter().map(|m| m.abbr2()).collect();
    assert_eq!(abbr2, vec!["JA", "FE", "MR", "AP", "MY", "JN", "JL", "AU", "SE", "OC", "NV", "DE"]);
    let abbr1: Vec<&str> = MONTHS.iter().map(|m| m.abbr1()).collect();
    assert_eq!(abbr1, vec!["J", "F", "M", "P", "Y", "N", "L", "U", "S", "O", "N", "D"]);
    for m in MONTHS {
        assert_eq!(m.abbr3(), &m.name()[..3]);
    }
    assert_eq!(Month::Jan, Month::January);
    assert_eq!(Month::Dec, Month::December);
    assert_eq!(Month::MY, Month::May);
    assert_eq!(Month::NV, Month::November);
}

#[test]
fn months_are_parsed_from_names_in_any_case() {
    for m in MONTHS {
        assert_eq!(Month::from_name(m.name()), Ok(m));
        assert_eq!(Month::from_name(&m.name().to_uppercase()), Ok(m));
        assert_eq!(Month::from_name(&m.name().to_lowercase()), Ok(m));
        assert_eq!(Month::from_name(m.abbr3()), Ok(m));
        assert_eq!(Month::from_name(&m.abbr3().to_lowercase()), Ok(m));
        assert_eq!(Month::from_name(m.abbr2()), Ok(m));
        assert_eq!(Month::from_name(&m.abbr2().to_lowercase()), Ok(m));
        assert_eq!(Month::from_str(m.name()), Ok(m));
        assert_eq!(m.name().parse::<Month>(), Ok(m));
    }
    // June and November share their letter: June comes first
    assert_eq!(Month::from_name("N"), Ok(Month::June));
    assert_eq!(Month::from_name("n"), Ok(Month::June));
    assert_eq!(Month::from_name("J"), Ok(Month::January));
    assert_eq!(Month::from_name("y"), Ok(Month::May));
    assert_eq!(Month::from_name("D"), Ok(Month::December));
    assert_eq!(Month::from_name(""), Err("Invalid month name."));
    assert_eq!(Month::from_name("Janu"), Err("Invalid month name."));
    assert_eq!(Month::from_name("January "), Err("Invalid month name."));
    assert_eq!(Month::from_name("Jänner"), Err("Invalid month name."));
    assert_eq!(Month::from_name("X"), Err("Invalid month name."));
    assert_eq!("smarch".parse::<Month>(), Err("Invalid month name."));
}

#[test]
fn weekdays_follow_each_other() {
    for (i, d) in WEEKDAYS.iter().enumerate() {
        assert_eq!(d.index_from_monday(), i);
        assert_eq!(d.number_from_monday() as usize, i + 1);
        assert_eq!(d.index_from_sunday(), (i + 1) % 7);
        assert_eq!(d.number_from_sunday() as usize, (i + 1) % 7 + 1);
        assert_eq!(d.next(), WEEKDAYS[(i + 1) % 7]);
        assert_eq!(d.previous(), WEEKDAYS[(i + 6) % 7]);
        assert_eq!(d.next().previous(), *d);
    }
    assert_eq!(Weekday::Sunday.next(), Weekday::Monday);
    assert_eq!(Weekday::Monday.previous(), Weekday::Sunday);
    assert_eq!(Weekday::Sunday.index_from_sunday(), 0);
    assert_eq!(Weekday::Sunday.number_from_sunday(), 1);
    assert_eq!(Weekday::Saturday.number_from_sunday(), 7);
}

#[test]
fn weekdays_have_their_names() {
    let names: Vec<&str> = WEEKDAYS.iter().map(|d| d.name()).collect();
    assert_eq!(
        names,
        vec!["Monday", "Tuesday", "Wednesday", "Thursday", "Friday", "Saturday", "Sunday"]
    );
    let abbr3: Vec<&str> = WEEKDAYS.iter().map(|d| d.abbr3()).collect();
    assert_eq!(abbr3, vec!["Mon", "Tue", "Wed", "Thu", "Fri", "Sat", "Sun"]);
    let abbr2: Vec<&str> = WEEKDAYS.iter().map(|d| d.abbr2()).collect();
    assert_eq!(abbr2, vec!["MO", "TU", "WE", "TH", "FR", "SA", "SU"]);
    let abbr1: Vec<&str> = WEEKDAYS.iter().map(|d| d.abbr1()).collect();
    assert_eq!(abbr1, vec!["M", "T", "W", "H", "F", "S", "U"]);
    assert_eq!(Weekday::Mon, Weekday::Monday);
    assert_eq!(Weekday::SU, Weekday::Sunday);
    assert_eq!(Weekday::H, Weekday::Thursday);
}

#[test]
fn weekdays_are_parsed_from_names_in_any_case() {
    for d in WEEKDAYS {
        for name in [d.name(), d.abbr3(), d.abbr2(), d.abbr1()] {
            assert_eq!(Weekday::from_name(name), Ok(d));
            assert_eq!(Weekday::from_name(&name.to_lowercase()), Ok(d));
            assert_eq!(Weekday::from_name(&name.to_uppercase()), Ok(d));
            assert_eq!(name.parse::<Weekday>(), Ok(d));
        }
    }
    assert_eq!(Weekday::from_name(""), Err("Invalid weekday name."));
    assert_eq!(Weekday::from_name("Mo."), Err("Invalid weekday name."));
    assert_eq!(Weekday::from_name("Fru"), Err("Invalid weekday name."));
    assert_eq!(Weekday::from_str("Someday"), Err("Invalid weekday name."));
}

#[test]
fn leap_years_come_every_fourth_year_but_for_most_centuries() {
    assert!(is_leap_year(2000));
    assert!(is_leap_year(2024));
    assert!(is_leap_year(1972));
    assert!(is_leap_year(0));
    assert!(is_leap_year(-4));
    assert!(is_leap_year(-400));
    assert!(!is_leap_year(1900));
    assert!(!is_leap_year(2100));
    assert!(!is_leap_year(2023));
    assert!(!is_leap_year(-1));
    assert!(!is_leap_year(-100));
    assert!(!is_leap_year(i32::MAX));
    assert!(is_leap_year(i32::MIN));
}
