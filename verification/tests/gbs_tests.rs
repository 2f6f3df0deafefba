use repo_sync::gbs::GbsBuildOptions;

#[test]
fn test_builder_with_clean() {
    let options = GbsBuildOptions::builder()
        .arch("x86_64".to_string())
        .dist("tizen_5.5.conf".to_string())
        .profile("profile.tizen_5.5".to_string())
        .clean(true)
        .build();

    assert_eq!(
        options.to_args(),
        vec![
            "-A".to_string(),
            "x86_64".to_string(),
            "-D".to_string(),
            "tizen_5.5.conf".to_string(),
            "-P".to_string(),
            "profile.tizen_5.5".to_string(),
            "-C".to_string(),
        ]
    );
}

#[test]
fn test_builder_with_incremental_and_no_configure() {
    let options = GbsBuildOptions::builder()
        .arch("aarch64".to_string())
        .dist("tizen_6.0.conf".to_string())
        .profile("profile.tizen_6.0".to_string())
        .incremental(true)
        .no_configure(true)
        .build();

    assert_eq!(
        options.to_args(),
        vec![
            "-A".to_string(),
            "aarch64".to_string(),
            "-D".to_string(),
            "tizen_6.0.conf".to_string(),
            "-P".to_string(),
            "profile.tizen_6.0".to_string(),
            "--incremental".to_string(),
            "--no-configure".to_string(),
        ]
    );
}

#[test]
fn test_builder_with_all_options() {
    let options = GbsBuildOptions::builder()
        .arch("mips".to_string())
        .dist("tizen_7.0.conf".to_string())
        .profile("profile.tizen_7.0".to_string())
        .repositories(vec![
            "http://download.tizen.org/snapshots/TIZEN/Tizen/Tizen-Unified/reference/repos/standard/packages/".to_string(),
            "http://download.tizen.org/snapshots/TIZEN/Tizen/Tizen-Unified/reference/repos/emulator/packages/".to_string(),
        ])
        .clean(true)
        .incremental(true)
        .no_configure(true)
        .noinit(true)
        .ccache(true)
        .pkg_ccache("chromium-efl".to_string())
        .build();

    assert_eq!(options.to_args(), vec![
        "-A".to_string(), "mips".to_string(),
        "-D".to_string(), "tizen_7.0.conf".to_string(),
        "-P".to_string(), "profile.tizen_7.0".to_string(),
        "-R".to_string(), "http://download.tizen.org/snapshots/TIZEN/Tizen/Tizen-Unified/reference/repos/standard/packages/".to_string(),
        "-R".to_string(), "http://download.tizen.org/snapshots/TIZEN/Tizen/Tizen-Unified/reference/repos/emulator/packages/".to_string(),
        "-C".to_string(),
        "--incremental".to_string(),
        "--no-configure".to_string(),
        "--noinit".to_string(),
        "--ccache".to_string(),
        "--pkg-ccache".to_string(), "chromium-efl".to_string(),
    ]);
}

#[test]
fn test_builder_with_gitdir() {
    let options = GbsBuildOptions::builder()
        .gitdir("/path/to/gitdir".to_string())
        .build();

    assert_eq!(options.to_args(), vec!["/path/to/gitdir".to_string()]);
}

#[test]
fn test_builder_with_debug_and_baselibs() {
    let options = GbsBuildOptions::builder().debug(true).baselibs(true).build();

    assert_eq!(
        options.to_args(),
        vec!["--debug".to_string(), "--baselibs".to_string(),]
    );
}

#[test]
fn test_builder_with_vm_options() {
    let options = GbsBuildOptions::builder()
        .kvm(true)
        .vm_memory("4G".to_string())
        .vm_disk("20G".to_string())
        .vm_swap("2G".to_string())
        .vm_diskfilesystem("ext4".to_string())
        .vm_initrd("/path/to/initrd".to_string())
        .vm_kernel("/path/to/kernel".to_string())
        .build();

    assert_eq!(
        options.to_args(),
        vec![
            "--kvm".to_string(),
            "--vm-memory".to_string(),
            "4G".to_string(),
            "--vm-disk".to_string(),
            "20G".to_string(),
            "--vm-swap".to_string(),
            "2G".to_string(),
            "--vm-diskfilesystem".to_string(),
            "ext4".to_string(),
            "--vm-initrd".to_string(),
            "/path/to/initrd".to_string(),
            "--vm-kernel".to_string(),
            "/path/to/kernel".to_string(),
        ]
    );
}

#[test]
fn test_builder_with_package_selection() {
    let options = GbsBuildOptions::builder()
        .package_list(vec!["package1".to_string(), "package2".to_string()])
        .exclude(vec!["package3".to_string()])
        .build();

    assert_eq!(
        options.to_args(),
        vec![
            "--package".to_string(),
            "package1".to_string(),
            "--package".to_string(),
            "package2".to_string(),
            "--exclude".to_string(),
            "package3".to_string(),
        ]
    );
}

#[test]
fn test_define_option() {
    let mut define: Vec<(String, String)> = Vec::new();
    define.push(("FOO".to_string(), "bar".to_string()));
    define.push(("BAZ".to_string(), "qux".to_string()));

    let options = GbsBuildOptions::builder().define(define).build();

    assert_eq!(
        options.to_args(),
        vec![
            "--define".to_string(),
            "BAZ qux".to_string(),
            "--define".to_string(),
            "FOO bar".to_string(),
        ]
    );
}

#[test]
fn test_builder_with_repository_and_threads() {
    let options = GbsBuildOptions::builder()
        .repository("https://example.com/a".to_string())
        .repository("https://example.com/b".to_string())
        .threads(12)
        .keepgoing(3)
        .build();

    assert_eq!(
        options.to_args(),
        vec![
            "-R".to_string(),
            "https://example.com/a".to_string(),
            "-R".to_string(),
            "https://example.com/b".to_string(),
            "--keepgoing".to_string(),
            "3".to_string(),
            "--threads".to_string(),
            "12".to_string(),
        ]
    );
}

#[test]
fn test_builder_with_extra_packs_joined() {
    let options = GbsBuildOptions::builder()
        .extra_packs(vec!["p1".to_string(), "p2".to_string(), "p3".to_string()])
        .build();

    assert_eq!(
        options.to_args(),
        vec!["--extra-packs".to_string(), "p1,p2,p3".to_string()]
    );
}

#[test]
fn test_default_options_render_empty() {
    let options = GbsBuildOptions::default();
    assert_eq!(options.to_args(), Vec::<String>::new());
}
