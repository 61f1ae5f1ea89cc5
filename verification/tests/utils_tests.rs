use vapours::errors::VapoursError;
use vapours::frame::{PlaneView, PlaneViewMut};
use vapours::utils::{depth_failure, DepthStep, DitherType, FMTCONV_NAMESPACE};

#[test]
fn test_dither_from_name() {
    assert_eq!(DitherType::from_name("auto"), Some(DitherType::Auto));
    assert_eq!(DitherType::from_name("none"), Some(DitherType::NoDither));
    assert_eq!(DitherType::from_name("ordered"), Some(DitherType::Ordered));
    assert_eq!(DitherType::from_name("random"), Some(DitherType::Random));
    assert_eq!(
        DitherType::from_name("error_diffusion"),
        Some(DitherType::ErrorDiffusion)
    );
    assert_eq!(
        DitherType::from_name("error_diffusion_fmtc"),
        Some(DitherType::ErrorDiffusionFmtc)
    );
    assert_eq!(DitherType::from_name("sierra_2_4a"), Some(DitherType::Sierra24a));
    assert_eq!(DitherType::from_name("stucki"), Some(DitherType::Stucki));
    assert_eq!(DitherType::from_name("atkinson"), Some(DitherType::Atkinson));
    assert_eq!(
        DitherType::from_name("ostromoukhov"),
        Some(DitherType::Ostromoukhov)
    );
    assert_eq!(DitherType::from_name("void"), Some(DitherType::Void));
    assert_eq!(
        DitherType::from_name("quasirandom"),
        Some(DitherType::Quasirandom)
    );
}

#[test]
fn test_dither_from_name_case_insensitive() {
    assert_eq!(DitherType::from_name("AUTO"), Some(DitherType::Auto));
    assert_eq!(DitherType::from_name("Ordered"), Some(DitherType::Ordered));
    assert_eq!(DitherType::from_name("Sierra_2_4A"), Some(DitherType::Sierra24a));
    assert_eq!(
        DitherType::from_name("Error_Diffusion_FMTC"),
        Some(DitherType::ErrorDiffusionFmtc)
    );
}

#[test]
fn test_dither_from_name_rejects_unknown() {
    assert_eq!(DitherType::from_name(""), None);
    assert_eq!(DitherType::from_name("nope"), None);
    assert_eq!(DitherType::from_name("autos"), None);
    assert_eq!(DitherType::from_name("error diffusion"), None);
    assert_eq!(DitherType::from_name("sierra_2_4a "), None);
}

#[test]
fn test_depth_failure_errors() {
    assert_eq!(FMTCONV_NAMESPACE, "fmtc");
    let missing = depth_failure(DepthStep::PluginLookup);
    assert!(matches!(&missing, VapoursError::DependencyNotFoundError(name) if name == "fmtc"));
    assert_eq!(missing.subject(), "fmtc");
    for step in [
        DepthStep::ClipArgument,
        DepthStep::BitDepthArgument,
        DepthStep::ResultFetch,
    ] {
        let error = depth_failure(step);
        assert!(matches!(&error, VapoursError::FramePropertyError(name) if name == "clip"));
        assert_eq!(error.subject(), "clip");
    }
}

#[test]
fn test_plane_view_checked_construction() {
    let data: Vec<u16> = (0..12).collect();
    // 3 rows of 3 pixels, stride 4: covers the 12 samples exactly
    assert!(PlaneView::new(data.as_slice(), 3, 3, 4).is_some());
    // a row wider than its stride is rejected
    assert!(PlaneView::new(data.as_slice(), 3, 5, 4).is_none());
    // a geometry that does not cover the storage exactly is rejected
    assert!(PlaneView::new(data.as_slice(), 2, 3, 4).is_none());
    assert!(PlaneView::new(data.as_slice(), 3, 3, 5).is_none());
}

#[test]
fn test_plane_view_sampling() {
    let data: Vec<u16> = (0..12).collect();
    let view = PlaneView::new(data.as_slice(), 3, 3, 4).unwrap();
    assert_eq!(view.height, 3);
    assert_eq!(view.width, 3);
    assert_eq!(view.stride, 4);
    assert_eq!(*view.sample(0, 0), 0);
    assert_eq!(*view.sample(1, 0), 4);
    assert_eq!(*view.sample(2, 2), 10);
}

#[test]
fn test_plane_view_mut_write() {
    let data: Vec<u16> = vec![0; 8];
    let mut plane = PlaneViewMut::new(data, 2, 3, 4).unwrap();
    plane.set_sample(0, 1, 7);
    plane.set_sample(1, 2, 9);
    assert_eq!(*plane.sample(0, 1), 7);
    assert_eq!(*plane.sample(1, 2), 9);
    assert_eq!(*plane.sample(0, 0), 0);
    assert_eq!(plane.data, vec![0, 7, 0, 0, 0, 0, 9, 0]);
}

#[test]
fn test_plane_view_empty_plane() {
    // a zero-height plane covers empty storage
    let data: Vec<u8> = Vec::new();
    let view = PlaneView::new(data.as_slice(), 0, 0, 4).unwrap();
    assert_eq!(view.height, 0);
    // but empty storage cannot back a one-row plane
    assert!(PlaneView::new(data.as_slice(), 1, 4, 4).is_none());
}

#[test]
fn test_plane_view_mut_rejects_bad_geometry() {
    let data: Vec<u16> = vec![0; 8];
    match PlaneViewMut::new(data, 3, 3, 4) {
        Ok(_) => panic!("geometry does not cover the storage"),
        Err(returned) => assert_eq!(returned.len(), 8),
    }
}
