use archive_deploy::resolver::{candidate_target_dirs, get_target_dirs, resolve_targets};
use archive_deploy::volumes::drive_letters_from_mask;

const CLIENT_REL: &str = "\\网络游戏\\三角洲行动\\DeltaForce\\Saved\\Config";
const WINDOWS_REL: &str = "\\网络游戏\\无畏契约\\live\\ShooterGame\\Saved\\Config";

#[test]
fn drives_from_mask_skip_first_four_letters() {
    assert_eq!(drive_letters_from_mask(0), Vec::<char>::new());
    assert_eq!(drive_letters_from_mask(0b1111), Vec::<char>::new());
    let mask = (1 << 4) | (1 << 5) | (1 << 7);
    assert_eq!(drive_letters_from_mask(mask), vec!['E', 'F', 'H']);
    let all = u32::MAX;
    let letters = drive_letters_from_mask(all);
    assert_eq!(letters.len(), 22);
    assert_eq!(letters[0], 'E');
    assert_eq!(letters[21], 'Z');
}

#[test]
fn candidates_one_per_drive() {
    let drives = vec!['E', 'F'];
    let cands = candidate_target_dirs("WindowsClient", &drives);
    assert_eq!(
        cands,
        vec![format!("E:{}", CLIENT_REL), format!("F:{}", CLIENT_REL)]
    );
    let cands = candidate_target_dirs("Windows", &drives);
    assert_eq!(
        cands,
        vec![format!("E:{}", WINDOWS_REL), format!("F:{}", WINDOWS_REL)]
    );
}

#[test]
fn unknown_name_resolves_to_nothing() {
    let drives = vec!['E', 'F', 'G'];
    let exists = vec![true, true, true];
    assert!(candidate_target_dirs("WINDOWSCLIENT", &drives).is_empty());
    assert!(get_target_dirs("Setup", &drives, &exists).is_empty());
    assert!(get_target_dirs("WINDOWS", &drives, &exists).is_empty());
}

#[test]
fn only_existing_candidates_remain() {
    let drives = vec!['E', 'F', 'G'];
    let exists = vec![true, false, true];
    let dirs = get_target_dirs("Windows", &drives, &exists);
    assert_eq!(
        dirs,
        vec![format!("E:{}", WINDOWS_REL), format!("G:{}", WINDOWS_REL)]
    );
}

#[test]
fn explicit_directory_bypasses_volumes() {
    let drives = vec!['E', 'F'];
    let exists = vec![true, true];
    let explicit = Some("X".to_string());
    let dirs = resolve_targets(&explicit, "Windows", &drives, &exists);
    assert_eq!(dirs, vec!["X".to_string()]);
    let no_drives: Vec<char> = vec![];
    let no_exists: Vec<bool> = vec![];
    let dirs = resolve_targets(&explicit, "Unknown", &no_drives, &no_exists);
    assert_eq!(dirs, vec!["X".to_string()]);
}

#[test]
fn without_explicit_directory_resolution_decides() {
    let drives = vec!['E'];
    let exists = vec![true];
    let dirs = resolve_targets(&None, "WindowsClient", &drives, &exists);
    assert_eq!(dirs, vec![format!("E:{}", CLIENT_REL)]);
}
