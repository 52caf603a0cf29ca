use codex_windows_cn::junction::{set_current_step, JunctionStep};

const LINK: &str = r"C:\Codex\versions\current";
const TARGET: &str = r"C:\Codex\versions\1.2.0";

#[test]
fn set_current_keeps_the_existing_junction_when_the_target_is_unchanged() {
    assert_eq!(
        set_current_step(
            true,
            Some(r"\\?\C:\Codex\versions\1.2.0".into()),
            Some(r"\\?\c:\codex\VERSIONS\1.2.0".into()),
            LINK,
            TARGET
        ),
        Ok(JunctionStep::Keep)
    );
}

#[test]
fn set_current_recreates_a_stale_or_missing_junction() {
    let expected = Ok(JunctionStep::Recreate {
        command_args: vec![
            "/c".to_string(),
            "mklink".to_string(),
            "/J".to_string(),
            LINK.to_string(),
            TARGET.to_string(),
        ],
    });
    assert_eq!(
        set_current_step(
            true,
            Some(r"\\?\C:\Codex\versions\1.0.0".into()),
            Some(r"\\?\C:\Codex\versions\1.2.0".into()),
            LINK,
            TARGET
        ),
        expected
    );
    assert_eq!(
        set_current_step(true, None, Some(r"\\?\C:\Codex\versions\1.2.0".into()), LINK, TARGET),
        expected
    );
}

#[test]
fn set_current_refuses_a_missing_target() {
    assert_eq!(
        set_current_step(false, None, None, LINK, TARGET),
        Err(format!("junction target {TARGET} does not exist"))
    );
}
