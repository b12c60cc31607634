use tui_renderer::decimal::Decimal;
use tui_renderer::geometry::{Dimension, Dimensions};
use tui_renderer::misc::{generic_dimension_calc, process_percent};

#[test]
fn html_dimension() {
    let ten_and_a_half = Decimal::from_micros(10_500_000);
    assert_eq!(
        Dimension::from_html(" 10 px ").unwrap(),
        Dimension::Pixel(10)
    );
    assert_eq!(
        Dimension::from_html(" 10.5 % ").unwrap(),
        Dimension::Percent(ten_and_a_half)
    );
    assert_eq!(
        Dimension::from_html(" 10.5 vW ").unwrap(),
        Dimension::VW(ten_and_a_half)
    );
    assert_eq!(
        Dimension::from_html(" 10.5 vH ").unwrap(),
        Dimension::VH(ten_and_a_half)
    );
    assert_eq!(
        Dimension::from_html(" 10.5 vmIn ").unwrap(),
        Dimension::VMin(ten_and_a_half)
    );
    assert_eq!(
        Dimension::from_html(" 10.5 vmAx ").unwrap(),
        Dimension::VMax(ten_and_a_half)
    );
    assert_eq!(
        Dimension::from_html(" 10.5 pW ").unwrap(),
        Dimension::PW(ten_and_a_half)
    );
    assert_eq!(
        Dimension::from_html(" 10.5 pH ").unwrap(),
        Dimension::PH(ten_and_a_half)
    );
    assert_eq!(
        Dimension::from_html(" 10.5 pMin ").unwrap(),
        Dimension::PMin(ten_and_a_half)
    );
    assert_eq!(
        Dimension::from_html(" 10.5 pMax ").unwrap(),
        Dimension::PMax(ten_and_a_half)
    );
    assert_eq!(Dimension::from_html(" 10 ").unwrap(), Dimension::Pixel(10));
    assert_eq!(Dimension::from_html(" auto ").unwrap(), Dimension::Auto);
}

#[test]
fn complaints_of_the_dimension_parser() {
    assert_eq!(Dimension::from_html("x px"), Err("Couldn't parse pixel dimension"));
    assert_eq!(Dimension::from_html("1.5px"), Err("Couldn't parse pixel dimension"));
    assert_eq!(Dimension::from_html("2147483648px"), Err("Couldn't parse pixel dimension"));
    assert_eq!(Dimension::from_html("x%"), Err("Couldn't parse percent dimension"));
    assert_eq!(Dimension::from_html("vw"), Err("Couldn't parse viewport width dimension"));
    assert_eq!(Dimension::from_html("1..2vh"), Err("Couldn't parse viewport height dimension"));
    assert_eq!(Dimension::from_html(".vmin"), Err("Couldn't parse viewport minimum dimension"));
    assert_eq!(Dimension::from_html("1e3vmax"), Err("Couldn't parse viewport maximum dimension"));
    assert_eq!(Dimension::from_html("--1pw"), Err("Couldn't parse parent width dimension"));
    assert_eq!(Dimension::from_html("1,5ph"), Err("Couldn't parse parent height dimension"));
    assert_eq!(Dimension::from_html("apmin"), Err("Couldn't parse parent minimum dimension"));
    assert_eq!(
        Dimension::from_html("99999999999999999999pmax"),
        Err("Couldn't parse parent maximum dimension")
    );
    assert_eq!(Dimension::from_html("ten"), Err("Couldn't parse pixel value"));
    assert_eq!(Dimension::from_html(""), Err("Couldn't parse pixel value"));
    assert_eq!(Dimension::from_html("1 0"), Err("Couldn't parse pixel value"));
}

#[test]
fn numbers_of_dimensions() {
    assert_eq!(Dimension::from_html("-7"), Ok(Dimension::Pixel(-7)));
    assert_eq!(Dimension::from_html("+7px"), Ok(Dimension::Pixel(7)));
    assert_eq!(Dimension::from_html("-2147483648"), Ok(Dimension::Pixel(i32::MIN)));
    assert_eq!(
        Dimension::from_html("-0.25%"),
        Ok(Dimension::Percent(Decimal::from_micros(-250_000)))
    );
    assert_eq!(
        Dimension::from_html(".5vw"),
        Ok(Dimension::VW(Decimal::from_micros(500_000)))
    );
    assert_eq!(
        Dimension::from_html("5.vw"),
        Ok(Dimension::VW(Decimal::from_micros(5_000_000)))
    );
    assert_eq!(
        Dimension::from_html("1.23456789vh"),
        Ok(Dimension::VH(Decimal::from_micros(1_234_567)))
    );
    assert_eq!(Dimension::from_html("AUTO"), Ok(Dimension::Auto));
}

#[test]
fn pixels_resolve_to_themselves() {
    for n in [0, 1, -1, 17, i32::MAX, i32::MIN] {
        for (pw, ph, vw, vh) in [(0, 0, 0, 0), (80, 24, 100, 50), (-5, i64::MAX, i64::MIN, 3)] {
            assert_eq!(
                generic_dimension_calc(&Dimension::Pixel(n), pw, ph, vw, vh, true),
                n as i64
            );
            assert_eq!(
                generic_dimension_calc(&Dimension::Pixel(n), pw, ph, vw, vh, false),
                n as i64
            );
        }
    }
}

#[test]
fn percentages_resolve_against_their_extent() {
    let half = Decimal::from_int(50);
    let calc = |d: Dimension, horizontal: bool| generic_dimension_calc(&d, 80, 24, 200, 100, horizontal);
    assert_eq!(calc(Dimension::Auto, true), 0);
    assert_eq!(calc(Dimension::Percent(half), true), 40);
    assert_eq!(calc(Dimension::Percent(half), false), 12);
    assert_eq!(calc(Dimension::PW(half), false), 40);
    assert_eq!(calc(Dimension::PH(half), true), 12);
    assert_eq!(calc(Dimension::PMin(half), true), 12);
    assert_eq!(calc(Dimension::PMax(half), false), 40);
    assert_eq!(calc(Dimension::VW(half), false), 100);
    assert_eq!(calc(Dimension::VH(half), true), 50);
    assert_eq!(calc(Dimension::VMin(half), true), 50);
    assert_eq!(calc(Dimension::VMax(half), true), 100);
}

#[test]
fn percentages_round_half_away_from_zero() {
    let calc = |micros: i64, extent: i64| {
        generic_dimension_calc(&Dimension::PW(Decimal::from_micros(micros)), extent, 0, 0, 0, true)
    };
    assert_eq!(calc(50_000_000, 5), 3);
    assert_eq!(calc(-50_000_000, 5), -3);
    assert_eq!(calc(50_000_000, -5), -3);
    assert_eq!(calc(49_999_999, 5), 2);
    assert_eq!(calc(10_500_000, 100), 11);
    assert_eq!(calc(10_400_000, 100), 10);
    assert_eq!(calc(500_000_000, 80), 400);
    assert_eq!(calc(i64::MAX, i64::MAX), i64::MAX);
    assert_eq!(calc(i64::MIN, i64::MAX), i64::MIN);
    assert_eq!(calc(i64::MIN, i64::MIN), i64::MAX);
    assert_eq!(calc(0, i64::MIN), 0);
}

#[test]
fn percentages_are_not_cut_to_32_bits() {
    let whole = Decimal::from_int(100);
    let half = Decimal::from_int(50);
    let wide: i64 = 1 << 40;
    let calc = |d: Dimension, horizontal: bool| {
        generic_dimension_calc(&d, wide, 3 * wide, 5 * wide, 7 * wide, horizontal)
    };
    assert_eq!(calc(Dimension::PW(whole), false), wide);
    assert_eq!(calc(Dimension::PH(whole), true), 3 * wide);
    assert_eq!(calc(Dimension::Percent(half), true), wide / 2);
    assert_eq!(calc(Dimension::Percent(half), false), 3 * wide / 2);
    assert_eq!(calc(Dimension::PMin(whole), true), wide);
    assert_eq!(calc(Dimension::PMax(whole), true), 3 * wide);
    assert_eq!(calc(Dimension::VW(whole), false), 5 * wide);
    assert_eq!(calc(Dimension::VH(whole), true), 7 * wide);
    assert_eq!(calc(Dimension::VMin(half), true), 5 * wide / 2);
    assert_eq!(calc(Dimension::VMax(half), true), 7 * wide / 2);
    assert_eq!(calc(Dimension::PW(Decimal::from_int(-100)), true), -wide);
    // One step short of the largest number of 64 bits, and one step beyond.
    assert_eq!(
        generic_dimension_calc(&Dimension::PW(whole), i64::MAX, 0, 0, 0, true),
        i64::MAX
    );
    assert_eq!(
        generic_dimension_calc(&Dimension::PW(Decimal::from_int(200)), i64::MAX, 0, 0, 0, true),
        i64::MAX
    );
    assert_eq!(
        generic_dimension_calc(&Dimension::PW(whole), i64::MIN, 0, 0, 0, true),
        i64::MIN
    );
}

#[test]
fn four_dimensions_at_once() {
    let d = Decimal::from_int(1);
    assert_eq!(
        Dimensions::auto(),
        (Dimension::Auto, Dimension::Auto, Dimension::Auto, Dimension::Auto)
    );
    assert_eq!(
        Dimensions::pixel(1, 2, 3, 4),
        (Dimension::Pixel(1), Dimension::Pixel(2), Dimension::Pixel(3), Dimension::Pixel(4))
    );
    assert_eq!(Dimensions::percent(d, d, d, d).0, Dimension::Percent(d));
    assert_eq!(Dimensions::pw(d, d, d, d).1, Dimension::PW(d));
    assert_eq!(Dimensions::ph(d, d, d, d).2, Dimension::PH(d));
    assert_eq!(Dimensions::pmin(d, d, d, d).3, Dimension::PMin(d));
    assert_eq!(Dimensions::pmax(d, d, d, d).0, Dimension::PMax(d));
    assert_eq!(Dimensions::vw(d, d, d, d).0, Dimension::VW(d));
    assert_eq!(Dimensions::vh(d, d, d, d).0, Dimension::VH(d));
    assert_eq!(Dimensions::vmin(d, d, d, d).0, Dimension::VMin(d));
    assert_eq!(Dimensions::vmax(d, d, d, d).0, Dimension::VMax(d));
}

#[test]
fn shares() {
    assert_eq!(process_percent(" 0.997 "), Ok(Decimal::from_micros(997_000)));
    assert_eq!(process_percent(" 99.7 % "), Ok(Decimal::from_micros(997_000)));
    assert_eq!(process_percent("-5%"), Ok(Decimal::from_micros(-50_000)));
    assert_eq!(process_percent("0.000199%"), Ok(Decimal::from_micros(1)));
    assert_eq!(process_percent("-0.000199%"), Ok(Decimal::from_micros(-1)));
    assert_eq!(process_percent("%"), Err("Couldn't parse percent"));
    assert_eq!(process_percent("abc"), Err("Couldn't parse percent"));
    assert_eq!(process_percent(""), Err("Couldn't parse percent"));
    assert_eq!(process_percent("9223372036854.775807"), Ok(Decimal::from_micros(i64::MAX)));
    assert_eq!(process_percent("9223372036854.775808"), Err("Couldn't parse percent"));
}
