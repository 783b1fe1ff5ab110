use kantyna_laser::{decimal_string, pretty_print_seconds};

#[test]
fn decimal_strings() {
    assert_eq!(decimal_string(0), "0");
    assert_eq!(decimal_string(7), "7");
    assert_eq!(decimal_string(10), "10");
    assert_eq!(decimal_string(8090), "8090");
    assert_eq!(decimal_string(u32::MAX), "4294967295");
}

#[test]
fn pretty_print_only_seconds() {
    assert_eq!(pretty_print_seconds(0), "0 sekund ");
    assert_eq!(pretty_print_seconds(59), "59 sekund ");
}

#[test]
fn pretty_print_skips_zero_parts() {
    assert_eq!(pretty_print_seconds(60), "1 minut 0 sekund ");
    assert_eq!(pretty_print_seconds(3600), "1 godzin 0 sekund ");
    assert_eq!(pretty_print_seconds(3725), "1 godzin 2 minut 5 sekund ");
    assert_eq!(pretty_print_seconds(86400), "1 dni 0 sekund ");
}

#[test]
fn pretty_print_all_parts() {
    assert_eq!(pretty_print_seconds(90061), "1 dni 1 godzin 1 minut 1 sekund ");
    assert_eq!(
        pretty_print_seconds(u32::MAX),
        "49710 dni 6 godzin 28 minut 15 sekund "
    );
}

#[test]
fn law_time_parts_add_up_on_values() {
    assert_eq!(
        pretty_print_seconds(2 * 86400 + 3 * 3600 + 4 * 60 + 5),
        "2 dni 3 godzin 4 minut 5 sekund "
    );
    assert_eq!(pretty_print_seconds(23 * 3600 + 59 * 60 + 59), "23 godzin 59 minut 59 sekund ");
}
