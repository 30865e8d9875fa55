use undiscovered_yt::clock::CalendarDate;
use undiscovered_yt::discover::{asks_for_date, compose_query, search_request, Discovery, Extra};
use undiscovered_yt::questions::category_answer;
use undiscovered_yt::text::{digit_to_char, push_decimal, push_padded_decimal, push_signed_decimal};

#[test]
fn categories_by_place() {
    assert_eq!(Discovery::from_index(0), Discovery::Webcam);
    assert_eq!(Discovery::from_index(1), Discovery::Pc);
    assert_eq!(Discovery::from_index(2), Discovery::SmartPhone);
    assert_eq!(Discovery::from_index(3), Discovery::Misc);
    assert_eq!(Discovery::try_from_index(4), None);
    assert_eq!(Discovery::try_from_index(3), Some(Discovery::Misc));
    for n in 0..Discovery::VARIANT_COUNT {
        assert_eq!(Discovery::from_index(n).to_index(), n);
    }
}

#[test]
fn extras_by_place() {
    assert_eq!(Extra::from_index(0), Extra::Date);
    assert_eq!(Extra::from_index(1), Extra::Other);
    assert_eq!(Extra::from_index(2), Extra::Other2);
    assert_eq!(Extra::try_from_index(3), None);
    assert_eq!(Extra::try_from_index(0), Some(Extra::Date));
    for n in 0..Extra::VARIANT_COUNT {
        assert_eq!(Extra::from_index(n).to_index(), n);
    }
}

#[test]
fn labels_of_categories_and_extras() {
    assert_eq!(Discovery::Webcam.label(), "Webcam");
    assert_eq!(Discovery::Pc.label(), "Pc");
    assert_eq!(Discovery::SmartPhone.label(), "Smartphone");
    assert_eq!(Discovery::Misc.label(), "Misc");
    assert_eq!(category_answer(Discovery::Misc), "Misc");
    assert_eq!(Extra::Date.label(), "Date");
    assert_eq!(Extra::Other.label(), "Other");
    assert_eq!(Extra::Other2.label(), "Other2");
}

#[test]
fn query_options_of_each_category() {
    assert_eq!(Discovery::Webcam.query_options(), vec!["WIN", "VID"]);
    assert_eq!(
        Discovery::Pc.query_options(),
        vec![".MP4", ".3GP", ".MOV", ".AVI", ".WMV", ".MKV", ".MPEG", ".FLV"]
    );
    assert_eq!(Discovery::SmartPhone.query_options(), vec!["IMG", "MVI", "WhatsApp Video"]);
    assert_eq!(Discovery::Misc.query_options(), vec!["FullSizeRender", "My Movie"]);
}

#[test]
fn date_extra_appends_the_day() {
    let date = CalendarDate { year: 2023, month: 7, day: 4 };
    let mut query = String::from("IMG");
    Extra::Date.apply(&mut query, date);
    assert_eq!(query, "IMG 20230704");
    Extra::Other.apply(&mut query, date);
    Extra::Other2.apply(&mut query, date);
    assert_eq!(query, "IMG 20230704");
}

#[test]
fn date_is_asked_for_by_its_extra_only() {
    assert!(!asks_for_date(&Vec::new()));
    assert!(!asks_for_date(&vec![Extra::Other, Extra::Other2]));
    assert!(asks_for_date(&vec![Extra::Other, Extra::Date]));
}

#[test]
fn query_is_option_then_extras() {
    let date = CalendarDate { year: 1999, month: 12, day: 31 };
    assert_eq!(compose_query("My Movie", &Vec::new(), date), "My Movie");
    assert_eq!(
        compose_query("VID", &vec![Extra::Other, Extra::Date, Extra::Other2], date),
        "VID 19991231"
    );
    assert_eq!(compose_query("VID", &vec![Extra::Date, Extra::Date], date), "VID 19991231 19991231");
    let early = CalendarDate { year: -5, month: 1, day: 2 };
    assert_eq!(compose_query("WIN", &vec![Extra::Date], early), "WIN -50102");
}

#[test]
fn search_request_draws_one_of_the_options() {
    for n in 0..Discovery::VARIANT_COUNT {
        let discovery = Discovery::from_index(n);
        for _ in 0..20 {
            let request = search_request(discovery, &Vec::new(), 7);
            assert!(discovery.query_options().contains(&request.query.as_str()));
            assert_eq!(request.max_results, 7);
            assert!(request.newest_first);
        }
    }
}

#[test]
fn search_request_draws_more_than_one_option() {
    let mut seen = Vec::new();
    for _ in 0..400 {
        let request = search_request(Discovery::Pc, &Vec::new(), 1);
        if !seen.contains(&request.query) {
            seen.push(request.query);
        }
    }
    assert!(seen.len() > 1);
}

#[test]
fn search_request_with_date_ends_in_today() {
    let request = search_request(Discovery::Webcam, &vec![Extra::Date], 255);
    let (option, day) = request.query.split_at(3);
    assert!(option == "WIN" || option == "VID");
    assert_eq!(day.len(), 9);
    assert!(day.starts_with(' '));
    let digits = &day[1..];
    assert!(digits.chars().all(|c| c.is_ascii_digit()));
    let year: u32 = digits[..4].parse().unwrap();
    let month: u32 = digits[4..6].parse().unwrap();
    let dom: u32 = digits[6..8].parse().unwrap();
    assert!(year >= 2024);
    assert!((1..=12).contains(&month));
    assert!((1..=31).contains(&dom));
    assert_eq!(request.max_results, 255);
}

#[test]
fn numbers_are_written_in_decimal() {
    let mut s = String::from("x");
    push_decimal(&mut s, 0);
    push_decimal(&mut s, 1203);
    assert_eq!(s, "x01203");
    let mut t = String::new();
    push_signed_decimal(&mut t, -42);
    push_signed_decimal(&mut t, 42);
    push_signed_decimal(&mut t, 0);
    assert_eq!(t, "-42420");
    let mut m = String::new();
    push_signed_decimal(&mut m, i64::MIN);
    assert_eq!(m, "-9223372036854775808");
    let mut p = String::new();
    push_padded_decimal(&mut p, 0);
    push_padded_decimal(&mut p, 9);
    push_padded_decimal(&mut p, 10);
    push_padded_decimal(&mut p, 123);
    assert_eq!(p, "000910123");
    assert_eq!(digit_to_char(0), '0');
    assert_eq!(digit_to_char(9), '9');
}
