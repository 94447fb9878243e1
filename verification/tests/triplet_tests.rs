use rpmpack::errors::PackError;
use rpmpack::triplet::Triplet;

#[test]
fn parse_full_triplet() {
    let t = Triplet::parse("x86_64-unknown-linux-gnu").unwrap();
    assert_eq!(t.arch, "x86_64");
    assert_eq!(t.vendor, "unknown");
    assert_eq!(t.os, "linux");
    assert_eq!(t.libc.as_deref(), Some("gnu"));
    assert_eq!(t.render(), "x86_64-unknown-linux-gnu");
}

#[test]
fn parse_three_segments() {
    let t = Triplet::parse("aarch64-apple-darwin").unwrap();
    assert_eq!(t.arch, "aarch64");
    assert_eq!(t.vendor, "apple");
    assert_eq!(t.os, "darwin");
    assert_eq!(t.libc, None);
    assert_eq!(t.render(), "aarch64-apple-darwin");
}

#[test]
fn parse_keeps_extra_segments_in_libc() {
    let t = Triplet::parse("arm-unknown-linux-gnu-eabihf").unwrap();
    assert_eq!(t.libc.as_deref(), Some("gnu-eabihf"));
    assert_eq!(t.render(), "arm-unknown-linux-gnu-eabihf");
}

#[test]
fn parse_too_few_segments_fails() {
    assert_eq!(
        Triplet::parse("x86_64-linux"),
        Err(PackError::TargetResolutionError)
    );
    assert_eq!(Triplet::parse("x86_64"), Err(PackError::TargetResolutionError));
    assert_eq!(Triplet::parse(""), Err(PackError::TargetResolutionError));
}

#[test]
fn parse_empty_segment_fails() {
    assert_eq!(
        Triplet::parse("-unknown-linux"),
        Err(PackError::TargetResolutionError)
    );
    assert_eq!(
        Triplet::parse("x86_64--linux"),
        Err(PackError::TargetResolutionError)
    );
    assert_eq!(
        Triplet::parse("x86_64-unknown-"),
        Err(PackError::TargetResolutionError)
    );
}

#[test]
fn arm_hard_float_maps_to_armhfp() {
    let t = Triplet::parse("arm-unknown-linux-gnueabihf").unwrap();
    assert_eq!(t.rpm_arch().unwrap(), "armhfp");
    let t = Triplet::parse("armv7-unknown-linux-musleabihf").unwrap();
    assert_eq!(t.rpm_arch().unwrap(), "armhfp");
}

#[test]
fn arm_without_libc_counts_as_hard_float() {
    let t = Triplet::parse("arm-unknown-linux").unwrap();
    assert_eq!(t.rpm_arch().unwrap(), "armhfp");
}

#[test]
fn arm_soft_float_is_unsupported() {
    let t = Triplet::parse("armv7-unknown-linux-gnueabi").unwrap();
    assert_eq!(
        t.rpm_arch(),
        Err(PackError::UnsupportedArch { arch: "armv7".to_string() })
    );
}

#[test]
fn powerpc_names_are_shortened() {
    let t = Triplet::parse("powerpc64-unknown-linux-gnu").unwrap();
    assert_eq!(t.rpm_arch().unwrap(), "ppc64");
    let t = Triplet::parse("powerpc64le-unknown-linux-gnu").unwrap();
    assert_eq!(t.rpm_arch().unwrap(), "ppc64le");
}

#[test]
fn allow_listed_arches_pass_through() {
    for arch in ["x86_64", "aarch64", "i386", "s390x"] {
        let s = format!("{}-unknown-linux-gnu", arch);
        let t = Triplet::parse(&s).unwrap();
        assert_eq!(t.rpm_arch().unwrap(), arch);
    }
}

#[test]
fn unknown_arch_is_unsupported() {
    let t = Triplet::parse("mips-unknown-linux-gnu").unwrap();
    assert_eq!(
        t.rpm_arch(),
        Err(PackError::UnsupportedArch { arch: "mips".to_string() })
    );
}
