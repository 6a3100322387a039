use recoil::utils::os_detect::{distro_from_os_release, map_to_distro, Distro, OsRelease};

const DEBIAN_12: &str = r#"
PRETTY_NAME="Debian GNU/Linux 12 (bookworm)"
NAME="Debian GNU/Linux"
ID=debian
VERSION_ID="12"
"#;

const UBUNTU_24: &str = r#"
PRETTY_NAME="Ubuntu 24.04 LTS"
NAME="Ubuntu"
ID=ubuntu
VERSION_ID="24.04"
ID_LIKE=debian
"#;

const ARCH: &str = r#"
PRETTY_NAME="Arch Linux"
NAME="Arch Linux"
ID=arch
"#;

const FEDORA_40: &str = r#"
PRETTY_NAME="Fedora Linux 40 (Workstation Edition)"
NAME="Fedora Linux"
ID=fedora
VERSION_ID=40
"#;

const MX_LINUX: &str = r#"
PRETTY_NAME="MX Linux 23"
NAME="MX Linux"
ID=mxlinux
ID_LIKE=debian
"#;

const UNKNOWN: &str = r#"
PRETTY_NAME="CustomOS 1.0"
NAME="CustomOS"
ID=customos
"#;

#[test]
fn detects_debian() {
    assert_eq!(map_to_distro(&OsRelease::parse(DEBIAN_12)), Distro::Debian);
}

#[test]
fn detects_ubuntu() {
    assert_eq!(map_to_distro(&OsRelease::parse(UBUNTU_24)), Distro::Ubuntu);
}

#[test]
fn detects_arch() {
    assert_eq!(map_to_distro(&OsRelease::parse(ARCH)), Distro::Arch);
}

#[test]
fn detects_fedora() {
    assert_eq!(map_to_distro(&OsRelease::parse(FEDORA_40)), Distro::Fedora);
}

#[test]
fn id_like_fallback_debian() {
    // MX Linux has ID=mxlinux but ID_LIKE=debian — should fall back.
    assert_eq!(map_to_distro(&OsRelease::parse(MX_LINUX)), Distro::Debian);
}

#[test]
fn unknown_distro_uses_generic_path() {
    let d = map_to_distro(&OsRelease::parse(UNKNOWN));
    assert!(matches!(d, Distro::Unknown(_)));
    assert_eq!(std::path::PathBuf::from(d.shadow_path()), std::path::PathBuf::from("/.recoil-linux"));
}

#[test]
fn all_known_shadow_paths_are_dot_prefixed() {
    let distros = [
        Distro::Debian,
        Distro::Ubuntu,
        Distro::Arch,
        Distro::Fedora,
        Distro::Kali,
        Distro::Mint,
        Distro::Unknown("TestOS".into()),
    ];
    for d in &distros {
        let p = std::path::PathBuf::from(d.shadow_path());
        assert!(p.is_absolute(), "{p:?} must be absolute");
        assert!(
            p.to_string_lossy().starts_with("/.recoil-"),
            "{p:?} must start with /.recoil-"
        );
    }
}

// ── Further cases ────────────────────────────────────────────────────────────

#[test]
fn parse_reads_fields_trims_and_unquotes() {
    let rel = OsRelease::parse("  ID=\"Debian\"  \n# comment\nID_LIKE='Ubuntu  Debian'\n\nPRETTY_NAME=\"My OS\"\r\n");
    assert_eq!(rel.id, "debian");
    assert_eq!(rel.id_like, vec!["ubuntu".to_string(), "debian".to_string()]);
    assert_eq!(rel.pretty_name, "My OS");
}

#[test]
fn parse_last_assignment_wins_and_defaults_apply() {
    let rel = OsRelease::parse("ID=arch\nID=manjaro\n");
    assert_eq!(rel.id, "manjaro");
    assert!(rel.id_like.is_empty());
    assert_eq!(rel.pretty_name, "Linux");
    let empty = OsRelease::parse("");
    assert_eq!(empty.id, "");
    assert_eq!(empty.pretty_name, "Linux");
}

#[test]
fn parse_key_is_everything_before_the_first_equals() {
    let rel = OsRelease::parse("ID =debian\nPRETTY_NAME=a=b\n");
    assert_eq!(rel.id, "");
    assert_eq!(rel.pretty_name, "a=b");
}

#[test]
fn matches_id_checks_id_and_id_like() {
    let rel = OsRelease::parse("ID=pop\nID_LIKE=\"ubuntu debian\"\n");
    assert!(rel.matches_id("pop"));
    assert!(rel.matches_id("debian"));
    assert!(!rel.matches_id("arch"));
}

#[test]
fn opensuse_prefix_and_fallback_chain() {
    assert_eq!(distro_from_os_release("ID=opensuse-tumbleweed\n"), Distro::OpenSuse);
    assert_eq!(distro_from_os_release("ID=endeavouros\nID_LIKE=arch\n"), Distro::Arch);
    assert_eq!(distro_from_os_release("ID=ol\nID_LIKE=\"rhel fedora\"\n"), Distro::Fedora);
    assert_eq!(distro_from_os_release("ID=neon\nID_LIKE=\"ubuntu\"\n"), Distro::Ubuntu);
    assert_eq!(distro_from_os_release("ID=Linuxmint\n"), Distro::Mint);
    assert_eq!(
        distro_from_os_release("PRETTY_NAME=\"Other\"\nID=other\n"),
        Distro::Unknown("Other".to_string())
    );
}

#[test]
fn shadow_and_display_names() {
    assert_eq!(Distro::Debian.shadow_dir_name(), ".recoil-debian");
    assert_eq!(Distro::AlmaLinux.shadow_dir_name(), ".recoil-alma");
    assert_eq!(Distro::PopOs.shadow_path(), "/.recoil-pop");
    assert_eq!(Distro::Rhel.display_name(), "Red Hat Enterprise Linux");
    assert_eq!(Distro::Unknown("X OS".into()).display_name(), "X OS");
}

#[test]
fn supported_distribution_shadow_directories() {
    let table = [
        (Distro::Debian, "/.recoil-debian"),
        (Distro::Ubuntu, "/.recoil-ubuntu"),
        (Distro::Arch, "/.recoil-arch"),
        (Distro::Fedora, "/.recoil-fedora"),
        (Distro::Mint, "/.recoil-mint"),
        (Distro::Kali, "/.recoil-kali"),
        (Distro::Parrot, "/.recoil-parrot"),
        (Distro::OpenSuse, "/.recoil-opensuse"),
        (Distro::AlmaLinux, "/.recoil-alma"),
        (Distro::RockyLinux, "/.recoil-rocky"),
        (Distro::PopOs, "/.recoil-pop"),
        (Distro::ElementaryOs, "/.recoil-elementary"),
        (Distro::Manjaro, "/.recoil-manjaro"),
        (Distro::Void, "/.recoil-void"),
        (Distro::Alpine, "/.recoil-alpine"),
        (Distro::Gentoo, "/.recoil-gentoo"),
        (Distro::CentOs, "/.recoil-centos"),
        (Distro::Rhel, "/.recoil-rhel"),
        (Distro::Unknown("Something".into()), "/.recoil-linux"),
    ];
    for (d, path) in table {
        assert_eq!(d.shadow_path(), path);
    }
}
