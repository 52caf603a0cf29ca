use codex_windows_cn::proxy::{
    codex_user_data_dir, find_codex_pids, find_our_codex_pids, foreign_codex_pids,
    holder_is_foreign, launch, lowered_path_starts_with, other_running_sorted, path_starts_with_ci,
    plan_launch,
    running_version_from_process_path, running_versions, LaunchOutcome, LaunchPlan, ProcessEntry,
    ProcessImage, SingletonHolder,
};
use codex_windows_cn::versions::AppKind;

const VERSIONS: &str = r"C:\Codex\versions";

#[test]
fn running_version_counts_only_root_entrypoints() {
    let main = r"C:\Codex\versions\26.707.3748.0\ChatGPT.exe";
    let helper = r"C:\Codex\versions\26.707.3748.0\resources\codex.exe";

    assert_eq!(
        running_version_from_process_path(VERSIONS, main).as_deref(),
        Some("26.707.3748.0")
    );
    assert_eq!(running_version_from_process_path(VERSIONS, helper), None);
}

#[test]
fn running_versions_are_listed_once() {
    let paths = vec![
        r"C:\Codex\versions\1.0.0\Codex.exe".to_string(),
        r"C:\Codex\versions\1.0.0\Codex.exe".to_string(),
        r"C:\Codex\versions\2.0.0\ChatGPT.exe".to_string(),
        r"C:\Other\versions\3.0.0\ChatGPT.exe".to_string(),
        r"C:\Codex\versions\current\ChatGPT.exe".to_string(),
    ];
    let mut running = running_versions(VERSIONS, &paths);
    running.sort();
    assert_eq!(running, vec!["1.0.0".to_string(), "2.0.0".to_string()]);
}

#[test]
fn lowered_prefix_test_compares_whole_components_exactly() {
    assert!(lowered_path_starts_with(r"c:\codex\versions\1.0\chatgpt.exe", r"c:\codex\versions"));
    assert!(lowered_path_starts_with(r"c:\codex\versions\1.0", r"c:\codex\versions\"));
    assert!(lowered_path_starts_with(r"c:/codex/versions/1.0", r"c:/codex/versions/"));
    assert!(lowered_path_starts_with(r"c:\codex\versions", r"c:\codex\versions"));
    assert!(!lowered_path_starts_with(r"c:\codex\versions-old\1.0", r"c:\codex\versions"));
    // already-lowercased texts are compared as they are
    assert!(!lowered_path_starts_with(r"C:\CODEX\versions\1.0", r"c:\codex\versions"));
}

#[test]
fn path_prefixes_compare_case_insensitively_on_components() {
    assert!(path_starts_with_ci(r"C:\CODEX\Versions\1.0\ChatGPT.exe", r"c:\codex\versions"));
    assert!(path_starts_with_ci(r"c:\codex\versions", r"C:\Codex\Versions"));
    assert!(!path_starts_with_ci(r"C:\Codex\versions-old\1.0\ChatGPT.exe", r"C:\Codex\versions"));
    let holder = SingletonHolder {
        pid: 7,
        image_path: r"D:\Elsewhere\ChatGPT.exe".into(),
    };
    assert!(holder_is_foreign(&holder, VERSIONS));
    let ours = SingletonHolder {
        pid: 7,
        image_path: r"c:\codex\VERSIONS\1.0\ChatGPT.exe".into(),
    };
    assert!(!holder_is_foreign(&ours, VERSIONS));
}

#[test]
fn process_filters_pick_codex_processes() {
    let table = vec![
        ProcessEntry {
            pid: 1,
            exe_name: "Codex.exe".into(),
        },
        ProcessEntry {
            pid: 2,
            exe_name: "chatgpt.EXE".into(),
        },
        ProcessEntry {
            pid: 3,
            exe_name: "notepad.exe".into(),
        },
    ];
    assert_eq!(find_codex_pids(&table, 1), vec![2]);
    let images = vec![
        ProcessImage {
            pid: 10,
            image_path: Some(r"C:\Codex\versions\1.0\ChatGPT.exe".into()),
        },
        ProcessImage {
            pid: 11,
            image_path: Some(r"D:\Other\ChatGPT.exe".into()),
        },
        ProcessImage {
            pid: 12,
            image_path: None,
        },
    ];
    assert_eq!(find_our_codex_pids(VERSIONS, &images), vec![10]);
    let foreign = foreign_codex_pids(11, VERSIONS, &images);
    assert!(foreign.contains(&11));
    assert!(!foreign.contains(&10));
}

#[test]
fn user_data_folder_prefers_a_non_blank_override() {
    assert_eq!(
        codex_user_data_dir(Some("  D:\\data  ".into()), Some(r"C:\Users\t\AppData\Roaming".into()))
            .as_deref(),
        Some(r"D:\data")
    );
    assert_eq!(
        codex_user_data_dir(Some("   ".into()), Some(r"C:\Users\t\AppData\Roaming".into()))
            .as_deref(),
        Some(r"C:\Users\t\AppData\Roaming\Codex")
    );
    assert_eq!(codex_user_data_dir(None, None), None);
}

#[test]
fn launching_another_version_requires_a_confirmed_switch() {
    let running = vec!["2.0.0".to_string(), "1.5.0".to_string(), "1.0.0".to_string()];
    match plan_launch("1.0.0", &running, false) {
        LaunchPlan::SwitchRequired {
            running_versions,
            target_version,
        } => {
            assert_eq!(running_versions, vec!["1.5.0".to_string(), "2.0.0".to_string()]);
            assert_eq!(target_version, "1.0.0");
        }
        other => panic!("expected a switch request, got {other:?}"),
    }
    assert!(matches!(
        plan_launch("1.0.0", &running, true),
        LaunchPlan::Launch {
            close_others: true,
            wait_for_start: true
        }
    ));
    assert!(matches!(
        plan_launch("1.0.0", &["1.0.0".to_string()], false),
        LaunchPlan::Launch {
            close_others: false,
            wait_for_start: false
        }
    ));
    assert!(matches!(
        plan_launch("1.0.0", &[], false),
        LaunchPlan::Launch {
            close_others: false,
            wait_for_start: true
        }
    ));
    assert_eq!(
        other_running_sorted("x", &["b".to_string(), "x".to_string(), "a".to_string()]),
        vec!["a".to_string(), "b".to_string()]
    );
}

#[test]
fn plain_launch_reports_a_required_switch() {
    assert_eq!(
        launch(LaunchOutcome::Launched {
            version: "2.0.0".into(),
            app_kind: AppKind::ChatGpt,
        }),
        Ok(())
    );
    assert_eq!(
        launch(LaunchOutcome::SwitchRequired {
            running_versions: vec!["1.0.0".into(), "1.5.0".into()],
            target_version: "2.0.0".into(),
        }),
        Err("version switch required from 1.0.0, 1.5.0 to 2.0.0".to_string())
    );
}
