use glassmarlin::paths::{
    bundle_stamp, bundled_site_packages, dpi_binary, join_path, marlinspike_root,
    python_executable, runtime_root, secret_key_file, user_data_dir, TargetOs,
};

#[test]
fn python_executable_on_unix() {
    assert_eq!(
        python_executable("/data/runtime", TargetOs::Unix),
        "/data/runtime/python/bin/python3"
    );
}

#[test]
fn python_executable_on_windows() {
    assert_eq!(
        python_executable("C:\\Users\\me\\GlassMarlin\\runtime", TargetOs::Windows),
        "C:\\Users\\me\\GlassMarlin\\runtime\\python\\python.exe"
    );
}

#[test]
fn site_packages_on_unix() {
    assert_eq!(
        bundled_site_packages("/data/runtime", TargetOs::Unix),
        "/data/runtime/python/lib/python3.12/site-packages"
    );
}

#[test]
fn site_packages_on_windows() {
    assert_eq!(
        bundled_site_packages("D:\\gm\\runtime", TargetOs::Windows),
        "D:\\gm\\runtime\\python\\Lib\\site-packages"
    );
}

#[test]
fn join_keeps_a_trailing_separator() {
    assert_eq!(join_path(TargetOs::Unix, "/data/", "runtime"), "/data/runtime");
    assert_eq!(join_path(TargetOs::Windows, "D:\\gm\\", "runtime"), "D:\\gm\\runtime");
    assert_eq!(join_path(TargetOs::Windows, "D:/gm/", "runtime"), "D:/gm/runtime");
    assert_eq!(join_path(TargetOs::Unix, "a\\", "b"), "a\\/b");
}

#[test]
fn join_onto_an_empty_base() {
    assert_eq!(join_path(TargetOs::Unix, "", "runtime"), "runtime");
}

#[test]
fn data_directory_layout() {
    let data = "/home/u/.local/share/GlassMarlin";
    let rt = runtime_root(TargetOs::Unix, data);
    assert_eq!(rt, "/home/u/.local/share/GlassMarlin/runtime");
    assert_eq!(
        bundle_stamp(TargetOs::Unix, &rt),
        "/home/u/.local/share/GlassMarlin/runtime/.bundle-version"
    );
    assert_eq!(
        secret_key_file(TargetOs::Unix, data),
        "/home/u/.local/share/GlassMarlin/secret_key"
    );
    assert_eq!(
        marlinspike_root(TargetOs::Unix, &rt),
        "/home/u/.local/share/GlassMarlin/runtime/marlinspike"
    );
    assert_eq!(
        user_data_dir(TargetOs::Unix, data),
        "/home/u/.local/share/GlassMarlin/marlinspike-data"
    );
    assert_eq!(
        dpi_binary(TargetOs::Unix, &rt),
        "/home/u/.local/share/GlassMarlin/runtime/marlinspike/dpi/marlinspike-dpi"
    );
}

#[test]
fn bare_drive_gets_no_separator() {
    assert_eq!(join_path(TargetOs::Windows, "C:", "python"), "C:python");
    assert_eq!(join_path(TargetOs::Windows, "d:", "python"), "d:python");
    assert_eq!(python_executable("C:", TargetOs::Windows), "C:python\\python.exe");
    assert_eq!(
        bundled_site_packages("C:", TargetOs::Windows),
        "C:python\\Lib\\site-packages"
    );
    assert_eq!(join_path(TargetOs::Windows, "1:", "python"), "1:\\python");
    assert_eq!(join_path(TargetOs::Windows, "C:x", "python"), "C:x\\python");
    assert_eq!(join_path(TargetOs::Unix, "C:", "python"), "C:/python");
}

#[test]
fn verbatim_paths_are_rebuilt_with_backslashes() {
    assert_eq!(
        join_path(TargetOs::Windows, "\\\\?\\C:\\gm\\\\rt\\", "python"),
        "\\\\?\\C:\\gm\\rt\\python"
    );
    assert_eq!(
        join_path(TargetOs::Windows, "\\\\?\\C:\\a/b", "x"),
        "\\\\?\\C:\\a/b\\x"
    );
    assert_eq!(join_path(TargetOs::Windows, "\\\\?\\C:", "x"), "\\\\?\\C:\\x");
    assert_eq!(join_path(TargetOs::Windows, "\\\\?\\C:\\", "x"), "\\\\?\\C:\\x");
    assert_eq!(
        join_path(TargetOs::Windows, "\\\\?\\UNC\\srv\\share\\dir", "x"),
        "\\\\?\\UNC\\srv\\share\\dir\\x"
    );
    assert_eq!(
        python_executable("\\\\?\\C:\\gm\\runtime", TargetOs::Windows),
        "\\\\?\\C:\\gm\\runtime\\python\\python.exe"
    );
}
