use guit::section::{BranchKind, Section};

#[test]
fn advance_follows_the_ring() {
    assert_eq!(Section::Status.advance(), Section::Commits);
    assert_eq!(Section::Commits.advance(), Section::Branches(BranchKind::Local));
    assert_eq!(Section::Branches(BranchKind::Local).advance(), Section::Reflog);
    assert_eq!(Section::Reflog.advance(), Section::Status);
}

#[test]
fn four_advances_close_the_ring() {
    for start in [
        Section::Status,
        Section::Commits,
        Section::Branches(BranchKind::Local),
        Section::Reflog,
    ] {
        assert_eq!(start.advance().advance().advance().advance(), start);
    }
}

#[test]
fn remote_branches_lead_to_reflog() {
    let remote = Section::Branches(BranchKind::Remote);
    assert_eq!(remote.advance(), Section::Reflog);
    assert_eq!(
        remote.advance().advance().advance().advance(),
        Section::Branches(BranchKind::Local)
    );
}
