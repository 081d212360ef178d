use color::channel::{to_channel, Channel};
use color::{ColorError, Deg, Hsv, Rgb, ToHsv};

#[test]
fn test_hsv_to_rgb() {
    assert_eq!(Hsv::<u16>::new(Deg(0), 0, 65535).to_rgb::<u8>(), Rgb::new(0xFF, 0xFF, 0xFF));
    assert_eq!(Hsv::<u16>::new(Deg(0), 65535, 39321).to_rgb::<u8>(), Rgb::new(0x99, 0x00, 0x00));
    assert_eq!(Hsv::<u16>::new(Deg(120), 65535, 39321).to_rgb::<u8>(), Rgb::new(0x00, 0x99, 0x00));
    assert_eq!(Hsv::<u16>::new(Deg(240), 65535, 39321).to_rgb::<u8>(), Rgb::new(0x00, 0x00, 0x99));
}

#[test]
fn test_hsv_to_hsv() {
    assert_eq!(
        Hsv::<u8>::new(Deg(0), 0, 255).to_hsv::<u16>(),
        Ok(Hsv::<u16>::new(Deg(0), 0, 65535))
    );
    assert_eq!(
        Hsv::<u8>::new(Deg(0), 255, 153).to_hsv::<u16>(),
        Ok(Hsv::<u16>::new(Deg(0), 65535, 39321))
    );
    assert_eq!(
        Hsv::<u8>::new(Deg(120), 255, 153).to_hsv::<u16>(),
        Ok(Hsv::<u16>::new(Deg(120), 65535, 39321))
    );
    assert_eq!(
        Hsv::<u8>::new(Deg(240), 255, 153).to_hsv::<u16>(),
        Ok(Hsv::<u16>::new(Deg(240), 65535, 39321))
    );
}

#[test]
fn test_to_hsv_same_domain_is_exact() {
    for v in [0u16, 1, 77, 39321, 65534, 65535] {
        let c = Hsv::<u16>::new(Deg(359), 65535 - v, v);
        assert_eq!(c.to_hsv::<u16>(), Ok(c));
    }
}

#[test]
fn test_to_hsv_round_trip_coarse_fine_coarse_is_exact() {
    for s in 0..=255u8 {
        let c = Hsv::<u8>::new(Deg(42), s, 255 - s);
        let fine: Hsv<u16> = c.to_hsv().unwrap();
        assert_eq!(fine.to_hsv::<u8>(), Ok(c));
        let finest: Hsv<u32> = c.to_hsv().unwrap();
        assert_eq!(finest.to_hsv::<u8>(), Ok(c));
    }
}

#[test]
fn test_to_hsv_round_trip_fine_coarse_fine_is_within_half_step() {
    // One 8-bit step spans 257 16-bit units; the round trip may move a
    // value by at most half of that.
    for v in [0u16, 1, 128, 129, 300, 39321, 50000, 65535] {
        let fine = Hsv::<u16>::new(Deg(10), v, 65535 - v);
        let coarse: Hsv<u8> = fine.to_hsv().unwrap();
        let back: Hsv<u16> = coarse.to_hsv().unwrap();
        assert!((i32::from(back.s) - i32::from(fine.s)).abs() <= 128);
        assert!((i32::from(back.v) - i32::from(fine.v)).abs() <= 128);
        assert_eq!(back.h, fine.h);
    }
}

#[test]
fn test_to_channel_rescales_by_ratio_of_maxima() {
    assert_eq!(to_channel::<u8, u16>(153u8), 39321u16);
    assert_eq!(to_channel::<u16, u8>(39321u16), 153u8);
    assert_eq!(to_channel::<u8, u16>(255u8), 65535u16);
    assert_eq!(to_channel::<u16, u8>(32768u16), 128u8);
    assert_eq!(to_channel::<u8, u32>(1u8), 16843009u32);
}

#[test]
fn test_zero_value_gives_black() {
    for h in [0u16, 45, 123, 359, 400] {
        for s in [0u16, 30000, 65535] {
            assert_eq!(Hsv::<u16>::new(Deg(h), s, 0).to_rgb::<u8>(), Rgb::new(0, 0, 0));
            assert_eq!(Hsv::<u16>::new(Deg(h), s, 0).to_rgb::<u16>(), Rgb::new(0, 0, 0));
        }
    }
}

#[test]
fn test_zero_saturation_gives_gray() {
    for h in [0u16, 59, 60, 180, 359] {
        let c = Hsv::<u16>::new(Deg(h), 0, 32768).to_rgb::<u8>();
        assert_eq!(c, Rgb::new(128, 128, 128));
        let d = Hsv::<u16>::new(Deg(h), 0, 65535).to_rgb::<u8>();
        assert_eq!(d, Rgb::new(255, 255, 255));
    }
}

#[test]
fn test_inverse_involution() {
    let x = Hsv::<u16>::new(Deg(300), 10000, 54321);
    let once = x.inverse();
    assert_eq!(once, Hsv::<u16>::new(Deg(120), 55535, 11214));
    assert_eq!(once.inverse(), x);

    let y = Hsv::<u8>::new(Deg(40), 3, 250);
    let once8 = y.inverse();
    assert_eq!(once8, Hsv::<u8>::new(Deg(220), 252, 5));
    assert_eq!(once8.inverse(), y);
}

#[test]
fn test_sector_boundary_continuity() {
    // Crossing each sector boundary by one degree of hue moves every
    // 8-bit output channel by at most the rounding granularity of one
    // degree (a 60th of the channel range is 4.25 in 8-bit units).
    let s = 65535u16;
    let v = 65535u16;
    for boundary in [0u16, 60, 120, 180, 240, 300, 360] {
        let before = Hsv::<u16>::new(Deg(if boundary == 0 { 359 } else { boundary - 1 }), s, v)
            .to_rgb::<u8>();
        let at = Hsv::<u16>::new(Deg(boundary), s, v).to_rgb::<u8>();
        for (a, b) in [(before.r, at.r), (before.g, at.g), (before.b, at.b)] {
            assert!((i32::from(a) - i32::from(b)).abs() <= 5);
        }
    }
    // Hue 360 and hue 0 are the same angle exactly.
    assert_eq!(
        Hsv::<u16>::new(Deg(360), s, v).to_rgb::<u8>(),
        Hsv::<u16>::new(Deg(0), s, v).to_rgb::<u8>()
    );
}

#[test]
fn test_clamp_s_leaves_hue_alone() {
    let c = Hsv::<u8>::new(Deg(200), 10, 240).clamp_s(50, 100);
    assert_eq!(c, Hsv::<u8>::new(Deg(200), 50, 100));
    let d = Hsv::<u8>::new(Deg(200), 80, 90).clamp_s(50, 100);
    assert_eq!(d, Hsv::<u8>::new(Deg(200), 80, 90));
}

#[test]
fn test_clamp_c_is_component_wise() {
    let lo = Hsv::<u16>::new(Deg(0), 100, 2000);
    let hi = Hsv::<u16>::new(Deg(0), 300, 4000);
    let c = Hsv::<u16>::new(Deg(77), 50, 65535).clamp_c(lo, hi);
    assert_eq!(c, Hsv::<u16>::new(Deg(77), 100, 4000));
}

#[test]
fn test_mix_in_rgb_space() {
    let a = Rgb::<u8>::new(10, 20, 30);
    let b = Rgb::<u8>::new(110, 120, 130);
    assert_eq!(a.mix(b, 0), a);
    assert_eq!(a.mix(b, 255), b);
    assert_eq!(a.mix(b, 51), Rgb::new(30, 40, 50));
}

#[test]
fn test_hsv_mix_reports_unimplemented_back_conversion() {
    let a = Hsv::<u8>::new(Deg(10), 100, 200);
    let b = Hsv::<u8>::new(Deg(250), 50, 60);
    assert_eq!(a.mix(b, 128), Err(ColorError::Unimplemented));
}

#[test]
fn test_to_hsv_from_packed_integers_is_unimplemented() {
    assert_eq!(0xff00ffu32.to_hsv::<u8>(), Err(ColorError::Unimplemented));
    assert_eq!(0xff00ff00ffu64.to_hsv::<u16>(), Err(ColorError::Unimplemented));
}

#[test]
fn test_to_hsv_from_rgb_is_unimplemented() {
    assert_eq!(Rgb::<u8>::new(1, 2, 3).to_hsv::<u8>(), Err(ColorError::Unimplemented));
}

#[test]
fn test_wrap_normalizes_hue_on_demand() {
    assert_eq!(Deg(725u16).wrap(), Deg(5u16));
    assert_eq!(Deg(360u16).wrap(), Deg(0u16));
    assert_eq!(Deg(359u16).wrap(), Deg(359u16));
    // Construction does not wrap.
    assert_eq!(Hsv::<u16>::new(Deg(725), 1, 2).h, Deg(725u16));
}

#[test]
fn test_channel_operations() {
    assert_eq!(100u8.normalized_mul(51), 20);
    assert_eq!(65535u16.normalized_mul(39321), 39321);
    assert_eq!(200u8.invert_channel(), 55);
    assert_eq!(0u16.invert_channel(), 65535);
    assert_eq!(7u8.clamp_channel(10, 20), 10);
    assert_eq!(27u8.clamp_channel(10, 20), 20);
    assert_eq!(15u8.clamp_channel(10, 20), 15);
    assert!(0u32.is_zero());
    assert!(!1u32.is_zero());
    assert_eq!(u16::channel_max(), 65535);
    assert_eq!(u32::channel_zero(), 0);
}

#[test]
fn test_32_bit_domain() {
    // 0x99999999 is exactly 0.6 of the 32-bit maximum, as 39321 is of the
    // 16-bit one.
    assert_eq!(
        Hsv::<u32>::new(Deg(240), 0xffff_ffff, 0x9999_9999).to_rgb::<u8>(),
        Rgb::new(0x00, 0x00, 0x99)
    );
    assert_eq!(
        Hsv::<u32>::new(Deg(0), 0, 0xffff_ffff).to_rgb::<u8>(),
        Rgb::new(0xFF, 0xFF, 0xFF)
    );
    // A 16-bit value carried into the 32-bit domain and back is unchanged.
    for v in [0u16, 1, 39321, 65535] {
        let c = Hsv::<u16>::new(Deg(300), v, 65535 - v);
        let fine: Hsv<u32> = c.to_hsv().unwrap();
        assert_eq!(fine.to_hsv::<u16>(), Ok(c));
    }
    assert_eq!(Deg(1_000_000u32).wrap(), Deg(280u32));
    let x = Hsv::<u32>::new(Deg(350), 7, 0xffff_fff0);
    assert_eq!(x.inverse(), Hsv::<u32>::new(Deg(170), 0xffff_fff8, 15));
    assert_eq!(x.inverse().inverse(), x);
}

#[test]
fn test_to_rgb_mid_sector_values() {
    // Hue 30 in the 16-bit domain: sector 0, half way up the ascending
    // edge; full saturation and value give an orange. The sector fraction
    // truncates to 32767 of 65535, so the middle channel rounds to 127.
    let c = Hsv::<u16>::new(Deg(30), 65535, 65535).to_rgb::<u8>();
    assert_eq!(c, Rgb::new(255, 127, 0));
    // Hue 90: sector 1, half way down the descending edge.
    let d = Hsv::<u16>::new(Deg(90), 65535, 65535).to_rgb::<u8>();
    assert_eq!(d, Rgb::new(128, 255, 0));
}
