use std::path::PathBuf;

use cbf_chrome::bridge_library::{BridgeLibrary, BridgeLoadOptions};
use cbf_chrome::chromium_backend::{ChromiumBackend, ChromiumBackendOptions};
use cbf_chrome::chromium_process::{chromium_command_args, ChromiumProcessOptions};

fn process_options() -> ChromiumProcessOptions {
    ChromiumProcessOptions {
        executable_path: PathBuf::from("/Applications/Chromium.app/Contents/MacOS/Chromium"),
        user_data_dir: None,
        enable_logging: None,
        log_file: None,
        v: None,
        vmodule: None,
        channel_name: "cbf-main".to_string(),
        extra_args: Vec::new(),
    }
}

#[test]
fn command_args_start_with_feature_and_channel() {
    assert_eq!(
        chromium_command_args(&process_options()),
        vec!["--enable-features=Cbf".to_string(), "--cbf-ipc-channel=cbf-main".to_string()]
    );
}

#[test]
fn command_args_add_each_given_option_in_order() {
    let options = ChromiumProcessOptions {
        user_data_dir: Some("/tmp/profile".to_string()),
        enable_logging: Some("stderr".to_string()),
        log_file: Some("/tmp/chromium.log".to_string()),
        v: Some(-2),
        vmodule: Some("cbf*=3".to_string()),
        extra_args: vec!["--headless".to_string(), "--mute-audio".to_string()],
        ..process_options()
    };
    assert_eq!(
        chromium_command_args(&options),
        vec![
            "--enable-features=Cbf".to_string(),
            "--cbf-ipc-channel=cbf-main".to_string(),
            "--user-data-dir=/tmp/profile".to_string(),
            "--enable-logging=stderr".to_string(),
            "--log-file=/tmp/chromium.log".to_string(),
            "--v=-2".to_string(),
            "--vmodule=cbf*=3".to_string(),
            "--headless".to_string(),
            "--mute-audio".to_string(),
        ]
    );
}

#[test]
fn command_args_write_verbosity_in_decimal() {
    let options = ChromiumProcessOptions { v: Some(1024), ..process_options() };
    assert_eq!(chromium_command_args(&options)[2], "--v=1024");
    for (v, text) in [(0, "--v=0"), (9, "--v=9"), (10, "--v=10"), (-7, "--v=-7"),
        (i32::MAX, "--v=2147483647"), (i32::MIN, "--v=-2147483648")]
    {
        let options = ChromiumProcessOptions { v: Some(v), ..process_options() };
        assert_eq!(chromium_command_args(&options)[2], text);
    }
}

#[test]
fn backend_options_default_to_a_minute_and_short_retries() {
    let options = ChromiumBackendOptions::new("cbf-main".to_string());
    assert_eq!(options.channel_name, "cbf-main");
    assert_eq!(options.connect_timeout_millis, Some(60_000));
    assert_eq!(options.retry_interval_millis, 100);
    assert_eq!(ChromiumBackend::new(options.clone()).options, options);
}

#[test]
fn bridge_load_options_builders_set_one_field_each() {
    let options = BridgeLoadOptions::default()
        .with_explicit_library_path(PathBuf::from("/opt/cbf/libcbf_bridge.dylib"));
    assert_eq!(options.explicit_library_path, Some(PathBuf::from("/opt/cbf/libcbf_bridge.dylib")));
    assert_eq!(options.explicit_library_dir, None);

    let options = options.with_explicit_library_dir(PathBuf::from("/opt/cbf"));
    assert_eq!(options.explicit_library_path, Some(PathBuf::from("/opt/cbf/libcbf_bridge.dylib")));
    assert_eq!(options.explicit_library_dir, Some(PathBuf::from("/opt/cbf")));
}

#[test]
fn bridge_library_reports_its_path() {
    let library = BridgeLibrary::loaded_from(PathBuf::from("/opt/cbf/libcbf_bridge.dylib"));
    assert_eq!(library.library_path(), &PathBuf::from("/opt/cbf/libcbf_bridge.dylib"));
}
