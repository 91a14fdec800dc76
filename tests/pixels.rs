use rgb::{ByteSlice, ComponentBytes, ComponentMap, RGB, RGB16, RGB8, RGBA};

#[test]
fn rgb_works() {
    let rgb = RGB { r: 0u8, g: 128, b: 255 }.clone();
    assert_eq!(rgb.b, 255);

    assert_eq!(
        rgb,
        RGB::from_components(&rgb.iter().into_iter().map(|ch| ch).collect::<Vec<_>>())
    );

    assert_eq!(0, rgb.as_bytes()[0]);
    assert_eq!(128, rgb.as_bytes()[1]);
    assert_eq!(255, rgb.as_bytes()[2]);

    let rgb = RGB16 { r: 0u16, g: 0x7F7F, b: 65535 };
    assert_eq!(rgb.b, 65535);
    assert_eq!(rgb.as_slice()[1], 0x7F7F);

    assert_eq!(0, rgb.as_bytes()[0]);
    assert_eq!(0, rgb.as_bytes()[1]);
    assert_eq!(0x7F, rgb.as_bytes()[2]);
    assert_eq!(0x7F, rgb.as_bytes()[3]);
    assert_eq!(0xFF, rgb.as_bytes()[4]);
    assert_eq!(0xFF, rgb.as_bytes()[5]);

    assert_eq!("rgb(1,2,3)", RGB::new(1, 2, 3).to_string());
}

#[test]
fn sub_floats() {
    assert_eq!(
        RGBA { r: 2.5_f64, g: -1.5, b: 0., a: 5. },
        RGBA { r: 3.5_f64, g: -0.5, b: -2., a: 0. } - RGBA { r: 1.0_f64, g: 1., b: -2., a: -5. }
    );
}

#[test]
fn into() {
    let a: RGB8 = RGB { r: 0, g: 1, b: 2 };
    let b: RGB<i16> = a.into();
    let c: RGB<f32> = b.convert();
    let d: RGB<f32> = a.convert();
    assert_eq!(c, d);
}

#[test]
fn rgba_works() {
    let rgba = RGBA { r: 0u8, g: 128, b: 255, a: 33 }.clone();
    assert_eq!(rgba.b, 255);
    assert_eq!(rgba.a, 33);

    assert_eq!(
        rgba,
        RGBA::from_components(&rgba.iter().into_iter().map(|ch| ch).collect::<Vec<_>>())
    );

    assert_eq!("rgba(1,2,3,4)", RGBA::new(1, 2, 3, 4).to_string());
}

#[test]
fn round_trip_through_components() {
    let x = RGB::new(7u16, 300, 65535);
    assert_eq!(x.iter(), vec![7, 300, 65535]);
    assert_eq!(RGB::from_components(&x.iter()), x);
    let y = RGBA::new(-1i32, 0, 1, i32::MAX);
    assert_eq!(y.iter(), vec![-1, 0, 1, i32::MAX]);
    assert_eq!(RGBA::from_components(&y.iter()), y);
}

#[test]
fn byte_view_is_native_representation() {
    let x = RGB::new(0x0102u16, 0x0304, 0xA0B0);
    let bytes = x.as_bytes();
    assert_eq!(bytes.len(), 6);
    assert_eq!(&bytes[0..2], &0x0102u16.to_ne_bytes());
    assert_eq!(&bytes[2..4], &0x0304u16.to_ne_bytes());
    assert_eq!(&bytes[4..6], &0xA0B0u16.to_ne_bytes());

    let y = RGBA::new(-2i32, 70000, 3, -70000);
    let bytes = y.as_bytes();
    assert_eq!(bytes.len(), 16);
    assert_eq!(&bytes[0..4], &(-2i32).to_ne_bytes());
    assert_eq!(&bytes[4..8], &70000i32.to_ne_bytes());
    assert_eq!(&bytes[8..12], &3i32.to_ne_bytes());
    assert_eq!(&bytes[12..16], &(-70000i32).to_ne_bytes());

    let z = RGB::new(-300i16, 5, 0x1234u32 as i16);
    let bytes = z.as_bytes();
    assert_eq!(&bytes[0..2], &(-300i16).to_ne_bytes());
    assert_eq!(&bytes[4..6], &0x1234i16.to_ne_bytes());

    let w = RGBA::new(1u32, 0x01020304, 0, u32::MAX);
    let bytes = w.as_bytes();
    assert_eq!(bytes.len(), 16);
    assert_eq!(&bytes[4..8], &0x01020304u32.to_ne_bytes());
    assert_eq!(&bytes[12..16], &[255, 255, 255, 255]);
}

#[test]
fn byte_view_of_pixel_slices() {
    let px = [RGB::new(1u8, 2, 3), RGB::new(4, 5, 6)];
    assert_eq!(px[..].as_bytes(), vec![1, 2, 3, 4, 5, 6]);
    let px = [RGBA::new(1u8, 2, 3, 4), RGBA::new(5, 6, 7, 8)];
    assert_eq!(px[..].as_bytes(), vec![1, 2, 3, 4, 5, 6, 7, 8]);
    let px = [RGB::new(0x0102u16, 0, 0)];
    let bytes = px[..].as_bytes();
    assert_eq!(bytes.len(), 6);
    assert_eq!(&bytes[0..2], &0x0102u16.to_ne_bytes());
    let empty: [RGB<u8>; 0] = [];
    assert!(empty[..].as_bytes().is_empty());
}

#[test]
fn set_components_overwrites_in_order() {
    let mut x = RGB::new(0u8, 0, 0);
    x.set_components(&[9, 8, 7]);
    assert_eq!(x, RGB::new(9, 8, 7));
    let mut y = RGBA::new(0u16, 0, 0, 0);
    y.set_components(&[1, 2, 3, 4]);
    assert_eq!(y, RGBA::new(1, 2, 3, 4));
    assert_eq!(y.as_slice(), vec![1, 2, 3, 4]);
}

#[test]
fn map_applies_to_every_component() {
    let x = RGB::new(1u8, 2, 250);
    assert_eq!(x.map(|c: u8| 255 - c), RGB::new(254, 253, 5));
    assert_eq!(x.map(|c: u8| c as u16 * 2), RGB::new(2u16, 4, 500));
    let y = RGBA::new(10i32, -20, 30, -40);
    assert_eq!(y.map(|c: i32| c / 10), RGBA::new(1, -2, 3, -4));
}

#[test]
fn map_identity_gives_same_pixel() {
    let x = RGB::new(3i16, -4, 5);
    assert_eq!(x.map(|c: i16| c), x);
    let y = RGBA::new(3u32, 4, 5, 6);
    assert_eq!(y.map(|c: u32| c), y);
}

#[test]
fn map_composition() {
    let f = |c: u8| c as u16 + 1;
    let g = |c: u16| c * 3;
    let x = RGB::new(0u8, 100, 255);
    assert_eq!(x.map(f).map(g), x.map(|c: u8| g(f(c))));
    assert_eq!(x.map(f).map(g), RGB::new(3u16, 303, 768));
    let y = RGBA::new(1u8, 2, 3, 4);
    assert_eq!(y.map(f).map(g), y.map(|c: u8| g(f(c))));
}

#[test]
fn sub_then_add_gives_back() {
    let a = RGB::new(10i32, -5, 7);
    let b = RGB::new(3i32, 20, -7);
    assert_eq!((a - b) + b, a);
    let a = RGBA::new(1.5f64, 2.25, -3.0, 0.5);
    let b = RGBA::new(0.5f64, 0.25, 1.0, 0.5);
    assert_eq!((a - b) + b, a);
}

#[test]
fn elementwise_operators() {
    let a = RGB::new(10u8, 20, 30);
    let b = RGB::new(1u8, 2, 3);
    assert_eq!(a + b, RGB::new(11, 22, 33));
    assert_eq!(a - b, RGB::new(9, 18, 27));
    assert_eq!(a * b, RGB::new(10, 40, 90));
    assert_eq!(a / b, RGB::new(10, 10, 10));
    let c = RGBA::new(8i32, -6, 4, 2);
    let d = RGBA::new(2i32, 3, -4, 1);
    assert_eq!(c + d, RGBA::new(10, -3, 0, 3));
    assert_eq!(c - d, RGBA::new(6, -9, 8, 1));
    assert_eq!(c * d, RGBA::new(16, -18, -16, 2));
    assert_eq!(c / d, RGBA::new(4, -2, -1, 2));
}

#[test]
fn scalar_operators() {
    let a = RGB::new(10u16, 20, 30);
    assert_eq!(a + 5, RGB::new(15, 25, 35));
    assert_eq!(a - 10, RGB::new(0, 10, 20));
    assert_eq!(a * 2, RGB::new(20, 40, 60));
    assert_eq!(a / 10, RGB::new(1, 2, 3));
    let b = RGBA::new(3.5f64, -0.5, -2.0, 0.0);
    assert_eq!(b - 1.0, RGBA::new(2.5, -1.5, -3.0, -1.0));
    assert_eq!(b * 2.0, RGBA::new(7.0, -1.0, -4.0, 0.0));
}

#[test]
fn widening_conversions_keep_values_and_order() {
    let a: RGB8 = RGB { r: 1, g: 2, b: 3 };
    let b: RGB<u16> = a.into();
    assert_eq!(b, RGB { r: 1u16, g: 2, b: 3 });
    let c: RGB<f32> = b.convert();
    assert_eq!(c, RGB { r: 1.0f32, g: 2.0, b: 3.0 });
    let d: RGB<f32> = a.convert();
    assert_eq!(c, d);

    let e: RGB<u32> = b.into();
    let f: RGB<u32> = a.into();
    assert_eq!(e, f);
    assert_eq!(f, RGB::new(1u32, 2, 3));

    let g = RGBA::new(255u8, 0, 128, 7);
    let h: RGBA<i16> = g.into();
    assert_eq!(h, RGBA::new(255i16, 0, 128, 7));
    let i: RGBA<i32> = h.into();
    let j: RGBA<i32> = g.into();
    assert_eq!(i, j);
    let k: RGBA<u16> = g.into();
    let l: RGBA<i32> = k.into();
    assert_eq!(l, j);
    let m: RGBA<u32> = k.into();
    assert_eq!(m, RGBA::new(255u32, 0, 128, 7));
}

#[test]
fn formatting() {
    assert_eq!(RGB::new(1u8, 2, 3).to_string(), "rgb(1,2,3)");
    assert_eq!(RGBA::new(1u8, 2, 3, 4).to_string(), "rgba(1,2,3,4)");
    assert_eq!(RGB::new(0u16, 65535, 10).to_string(), "rgb(0,65535,10)");
    assert_eq!(RGBA::new(-1i16, -32768, 32767, 0).to_string(), "rgba(-1,-32768,32767,0)");
    assert_eq!(RGB::new(i32::MIN, u8::MAX as i32, -40).to_string(), "rgb(-2147483648,255,-40)");
    assert_eq!(RGBA::new(u32::MAX, 0, 1, 100).to_string(), "rgba(4294967295,0,1,100)");
}

#[test]
fn decimal_rendering() {
    assert_eq!(rgb::decimal_text(0), "0");
    assert_eq!(rgb::decimal_text(9), "9");
    assert_eq!(rgb::decimal_text(10), "10");
    assert_eq!(rgb::decimal_text(u64::MAX), "18446744073709551615");
    assert_eq!(rgb::signed_decimal_text(-7), "-7");
    assert_eq!(rgb::signed_decimal_text(i64::MIN), "-9223372036854775808");
    assert_eq!(rgb::signed_decimal_text(i64::MAX), "9223372036854775807");
}

#[test]
fn ordering_is_lexicographic_by_field() {
    assert!(RGB::new(1u8, 9, 9) < RGB::new(2u8, 0, 0));
    assert!(RGB::new(1u8, 2, 3) < RGB::new(1u8, 2, 4));
    assert!(RGBA::new(1u8, 2, 3, 4) < RGBA::new(1u8, 2, 3, 5));
    assert!(RGBA::new(0u8, 0, 9, 0) > RGBA::new(0u8, 0, 8, 255));
    assert_eq!(RGB::new(1u8, 2, 3), RGB::new(1u8, 2, 3));
    assert_ne!(RGB::new(1u8, 2, 3), RGB::new(3u8, 2, 1));
}

#[test]
fn subtracting_floating_pixels() {
    let a = RGBA::new(3.5f64, -0.5, -2.0, 0.0);
    let b = RGBA::new(1.0f64, 1.0, -2.0, -5.0);
    assert_eq!(a - b, RGBA::new(2.5, -1.5, 0.0, 5.0));
}
