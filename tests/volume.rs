use hslink::volume::{candidate_paths, find_mount_point, split_fields, split_lines};

#[test]
fn candidate_paths_in_order() {
    assert_eq!(
        candidate_paths("bob"),
        vec![
            "/media/bob/CHERRYUF2".to_string(),
            "/run/media/bob/CHERRYUF2".to_string(),
            "/mnt/CHERRYUF2".to_string(),
            "/media/CHERRYUF2".to_string(),
        ]
    );
}

#[test]
fn candidate_paths_without_user() {
    assert_eq!(candidate_paths("")[0], "/media//CHERRYUF2");
}

#[test]
fn fields_split_on_blanks() {
    let f = split_fields(&b"  CHERRYUF2 \t /media/x\r".to_vec());
    assert_eq!(f, vec![b"CHERRYUF2".to_vec(), b"/media/x".to_vec()]);
    assert!(split_fields(&b"   ".to_vec()).is_empty());
}

#[test]
fn lines_split_on_newlines() {
    assert_eq!(split_lines(b"a\n\nb"), vec![b"a".to_vec(), b"".to_vec(), b"b".to_vec()]);
    assert_eq!(split_lines(b"a\n"), vec![b"a".to_vec()]);
    assert!(split_lines(b"").is_empty());
}

#[test]
fn mount_point_found() {
    let out = b"\nBOOT /boot\nCHERRYUF2 /run/media/u/CHERRYUF2\nCHERRYUF2 /second\n";
    assert_eq!(find_mount_point(out), Some(b"/run/media/u/CHERRYUF2".to_vec()));
}

#[test]
fn mount_point_needs_two_fields() {
    assert_eq!(find_mount_point(b"CHERRYUF2\nCHERRYUF2   /mnt/x"), Some(b"/mnt/x".to_vec()));
    assert_eq!(find_mount_point(b"CHERRYUF2\n"), None);
}

#[test]
fn mount_point_label_must_match_exactly() {
    assert_eq!(find_mount_point(b"CHERRYUF /a\nXCHERRYUF2 /b\ncherryuf2 /c"), None);
}
