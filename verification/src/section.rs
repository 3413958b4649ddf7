//! The panes of the dashboard and the order in which focus moves through
//! them.

use vstd::prelude::*;

verus! {

/// Which branches a branch listing shows.
#[derive(Clone, Copy, Debug, PartialEq, Eq, Structural)]
pub enum BranchKind {
    Local,
    Remote,
}

/// One of the panes of the dashboard.
#[derive(Clone, Copy, Debug, PartialEq, Eq, Structural)]
pub enum Section {
    Status,
    Commits,
    Branches(BranchKind),
    Reflog,
}

impl Section {
    /// The pane that receives focus after this one.
    ///
    /// Focus moves in one direction through a single ring: status, commits,
    /// local branches, reflog, and back to status. A branch pane of either
    /// kind is followed by the reflog.
    pub open spec fn spec_advance(self) -> Section {
        match self {
            Section::Status => Section::Commits,
            Section::Commits => Section::Branches(BranchKind::Local),
            Section::Branches(_) => Section::Reflog,
            Section::Reflog => Section::Status,
        }
    }

    /// The pane that receives focus after `steps` moves.
    pub open spec fn spec_advance_n(self, steps: nat) -> Section
        decreases steps,
    {
        if steps == 0 {
            self
        } else {
            self.spec_advance_n((steps - 1) as nat).spec_advance()
        }
    }

    /// Whether this pane is one of the four that the ring passes through.
    /// Only a listing of remote branches is not.
    pub open spec fn on_ring(self) -> bool {
        self != Section::Branches(BranchKind::Remote)
    }

    /// Whether two panes show the same list. Branch panes of either kind
    /// share one list.
    pub open spec fn same_list(self, other: Section) -> bool {
        match (self, other) {
            (Section::Status, Section::Status) => true,
            (Section::Commits, Section::Commits) => true,
            (Section::Branches(_), Section::Branches(_)) => true,
            (Section::Reflog, Section::Reflog) => true,
            _ => false,
        }
    }

    /// The pane that receives focus after this one.
    #[verifier::when_used_as_spec(spec_advance)]
    pub fn advance(self) -> (next: Section)
        ensures
            next == self.spec_advance(),
    {
        match self {
            Section::Status => Section::Commits,
            Section::Commits => Section::Branches(BranchKind::Local),
            Section::Branches(_) => Section::Reflog,
            Section::Reflog => Section::Status,
        }
    }
}

/// Four moves of focus lead once around the ring: from any pane on the ring
/// back to that pane, and from a listing of remote branches to the listing
/// of local ones, which takes its place on the ring.
pub proof fn lemma_advance_closes_ring(section: Section)
    ensures
        section.on_ring() ==> section.spec_advance_n(4) == section,
        !section.on_ring() ==> section.spec_advance_n(4) == Section::Branches(BranchKind::Local),
        section.spec_advance_n(4).same_list(section),
{
    reveal_with_fuel(Section::spec_advance_n, 5);
}

/// Moving focus any multiple of four times from a pane on the ring leads
/// back to it.
pub proof fn lemma_advance_period(section: Section, rounds: nat)
    requires
        section.on_ring(),
    ensures
        section.spec_advance_n(4 * rounds) == section,
    decreases rounds,
{
    if rounds > 0 {
        lemma_advance_period(section, (rounds - 1) as nat);
        let before = section.spec_advance_n((4 * (rounds - 1)) as nat);
        assert(before == section);
        reveal_with_fuel(Section::spec_advance_n, 5);
        assert(section.spec_advance_n(4 * rounds) == section.spec_advance_n(
            (4 * rounds - 4) as nat,
        ).spec_advance().spec_advance().spec_advance().spec_advance());
    }
}

} // verus!
