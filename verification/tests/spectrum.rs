use mitsuba_rs::{Channel, Error, Number, Spectrum, Value, RGB};

fn number(c: &Channel) -> f32 {
    match c {
        Channel::Literal(n) => n.text.parse::<f32>().unwrap(),
        Channel::Byte(b) => *b as f32 / 255.0,
    }
}

fn channels(rgb: &RGB) -> (f32, f32, f32) {
    (number(&rgb.r), number(&rgb.g), number(&rgb.b))
}

#[test]
fn spectrum_to_rgb_failed() {
    let s = Spectrum { value: "0.01, 0.2".to_string() };
    let res = s.as_rgb();
    assert!(res.is_err())
}

#[test]
fn spectrum_to_rgb_ok() {
    let s = Spectrum { value: "0.01, 0.2, 0.3".to_string() };
    let res = s.as_rgb();
    assert!(res.is_ok())
}

#[test]
fn comma_triple_gives_its_three_literals() {
    let rgb = Spectrum::new("0.01, 0.2, 0.3").as_rgb().unwrap();
    assert_eq!(rgb.r, Channel::Literal(Number::new("0.01")));
    assert_eq!(rgb.g, Channel::Literal(Number::new("0.2")));
    assert_eq!(rgb.b, Channel::Literal(Number::new("0.3")));
    assert_eq!(channels(&rgb), (0.01, 0.2, 0.3));
}

#[test]
fn round_trip_of_a_triple() {
    let (r, g, b): (f32, f32, f32) = (0.125, 0.75, 1.5);
    let text = format!("{},{},{}", r, g, b);
    let rgb = Spectrum::from_rgb(text).as_rgb().unwrap();
    assert_eq!(channels(&rgb), (r, g, b));
}

#[test]
fn single_value_is_all_three_channels() {
    let rgb = Spectrum::new("0.5").as_rgb().unwrap();
    assert_eq!(channels(&rgb), (0.5, 0.5, 0.5));
    let rgb = Spectrum::new("  7 ").as_rgb().unwrap();
    assert_eq!(channels(&rgb), (7.0, 7.0, 7.0));
}

#[test]
fn words_give_a_triple() {
    let rgb = Spectrum::new("0.1 0.2\t0.3").as_rgb().unwrap();
    assert_eq!(channels(&rgb), (0.1, 0.2, 0.3));
}

#[test]
fn hex_black_and_white() {
    let black = Spectrum::new("#000000").as_rgb().unwrap();
    assert_eq!(channels(&black), (0.0, 0.0, 0.0));
    let white = Spectrum::new("#ffffff").as_rgb().unwrap();
    assert_eq!(channels(&white), (1.0, 1.0, 1.0));
}

#[test]
fn hex_digits_are_a_byte_per_channel() {
    let rgb = Spectrum::new(" #1a2B3c ").as_rgb().unwrap();
    assert_eq!(rgb.r, Channel::Byte(0x1a));
    assert_eq!(rgb.g, Channel::Byte(0x2b));
    assert_eq!(rgb.b, Channel::Byte(0x3c));
}

#[test]
fn hex_of_wrong_length_is_refused() {
    for text in ["#fff", "#1234567", "#", "#12345g", "ab#cdef0"] {
        match Spectrum::new(text).as_rgb() {
            Err(Error::InvalidHex(v)) => assert_eq!(v, text),
            other => panic!("{} gave {:?}", text, other),
        }
    }
}

#[test]
fn spectral_samples_are_refused() {
    match Spectrum::new("400:0.1, 500:0.2").as_rgb() {
        Err(Error::UnsupportedSpectralSamples(v)) => assert_eq!(v, "400:0.1, 500:0.2"),
        other => panic!("{:?}", other),
    }
}

#[test]
fn two_or_four_values_are_a_mismatch() {
    for text in ["0.01, 0.2", "1 2", "1,2,3,4", "", "a, b, c", "1, , 3"] {
        match Spectrum::new(text).as_rgb() {
            Err(Error::ValueMismatch(what, Value::Spectrum(s))) => {
                assert_eq!(what, "as_rgb");
                assert_eq!(s.value, text);
            }
            other => panic!("{} gave {:?}", text, other),
        }
    }
}

#[test]
fn accessors_give_the_payload_or_a_mismatch() {
    assert_eq!(Value::String("a".to_string()).as_string().unwrap(), "a");
    assert_eq!(Value::Ref("r".to_string()).as_ref().unwrap(), "r");
    assert_eq!(Value::Float(Number::new("1.5")).as_float().unwrap().text, "1.5");
    assert_eq!(Value::Integer(-3).as_int().unwrap(), -3);
    assert!(Value::Boolean(true).as_bool().unwrap());
    assert_eq!(Value::Spectrum(Spectrum::new("1")).as_spectrum().unwrap().value, "1");
    match Value::Integer(4).as_string() {
        Err(Error::ValueMismatch(what, Value::Integer(4))) => assert_eq!(what, "as_string"),
        other => panic!("{:?}", other),
    }
    match Value::Boolean(false).as_float() {
        Err(Error::ValueMismatch(what, Value::Boolean(false))) => assert_eq!(what, "as_float"),
        other => panic!("{:?}", other),
    }
    assert!(Value::String("x".to_string()).as_vec().is_err());
    assert!(Value::String("x".to_string()).as_point().is_err());
    assert!(Value::String("x".to_string()).as_int().is_err());
    assert!(Value::String("x".to_string()).as_bool().is_err());
    assert!(Value::String("x".to_string()).as_ref().is_err());
    assert!(Value::String("x".to_string()).as_spectrum().is_err());
}

#[test]
fn every_tabulated_index_of_refraction_is_found() {
    let table: [(&str, f32); 23] = [
        ("vacuum", 1.0),
        ("helium", 1.000036),
        ("hydrogen", 1.000132),
        ("air", 1.000277),
        ("carbon dioxide", 1.00045),
        ("water", 1.3330),
        ("acetone", 1.36),
        ("ethanol", 1.361),
        ("carbon tetrachloride", 1.461),
        ("glycerol", 1.4729),
        ("benzene", 1.501),
        ("silicone oil", 1.52045),
        ("bromine", 1.661),
        ("water ice", 1.31),
        ("fused quartz", 1.458),
        ("pyrex", 1.470),
        ("acrylic glass", 1.49),
        ("polypropylene", 1.49),
        ("bk7", 1.5046),
        ("sodium chloride", 1.544),
        ("amber", 1.55),
        ("pet", 1.5750),
        ("diamond", 2.419),
    ];
    for (name, expected) in table {
        let n = Value::String(name.to_string()).as_ior().unwrap();
        assert_eq!(n.text.parse::<f32>().unwrap(), expected, "{}", name);
    }
}

#[test]
fn index_of_refraction_of_a_number_is_the_number() {
    assert_eq!(Value::Float(Number::new("1.33")).as_ior().unwrap().text, "1.33");
}

#[test]
fn unknown_material_has_no_index_of_refraction() {
    match Value::String("unobtainium".to_string()).as_ior() {
        Err(Error::UnknownVariant(kind, name)) => {
            assert_eq!(kind, "ior");
            assert_eq!(name, "unobtainium");
        }
        other => panic!("{:?}", other),
    }
    assert!(matches!(Value::Integer(1).as_ior(), Err(Error::ValueMismatch(_, _))));
}
