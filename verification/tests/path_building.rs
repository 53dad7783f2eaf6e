use kse_launcher::command::build_jvm_args;
use kse_launcher::paths::archive_path;
use kse_launcher::paths::bundled_jre_path;
use kse_launcher::paths::bundled_runtime_path;
use kse_launcher::paths::runtime_path_from_home;

#[test]
fn archive_sits_beside_the_executable() {
    assert_eq!(archive_path("C:\\KSE"), "C:\\KSE\\kse.jar");
    assert_eq!(archive_path("D:\\tools\\kse"), "D:\\tools\\kse\\kse.jar");
}

#[test]
fn bundled_jre_dir_sits_beside_the_executable() {
    assert_eq!(bundled_jre_path("C:\\KSE"), "C:\\KSE\\jre");
}

#[test]
fn bundled_runtime_is_inside_the_jre_dir() {
    assert_eq!(bundled_runtime_path("C:\\KSE"), "C:\\KSE\\jre\\bin\\javaw.exe");
}

#[test]
fn runtime_is_inside_the_home_bin_dir() {
    assert_eq!(runtime_path_from_home("C:\\Java17"), "C:\\Java17\\bin\\javaw.exe");
}

#[test]
fn jvm_args_without_flags_are_jar_archive_then_passthrough() {
    let extra = vec!["a".to_string(), "b".to_string()];
    assert_eq!(
        build_jvm_args(false, "C:\\KSE\\kse.jar", &extra),
        vec![
            "-jar".to_string(),
            "C:\\KSE\\kse.jar".to_string(),
            "a".to_string(),
            "b".to_string(),
        ]
    );
}

#[test]
fn jvm_args_with_flags_start_with_marker_and_splash() {
    let extra: Vec<String> = Vec::new();
    assert_eq!(
        build_jvm_args(true, "C:\\KSE\\kse.jar", &extra),
        vec![
            "-Dkse.exe=true".to_string(),
            "-splash:splash.png".to_string(),
            "-jar".to_string(),
            "C:\\KSE\\kse.jar".to_string(),
        ]
    );
}
