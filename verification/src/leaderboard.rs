use vstd::prelude::*;
use crate::contract::Contract;

verus! {

/// Lifetime figures of a researcher.
#[derive(Debug, Clone, Copy, PartialEq, Eq, Structural)]
pub struct FinderStats {
    pub total_rewards_earned: u128,
    pub total_bugs_found: u32,
    pub total_severity_score: u32,
}

/// Lifetime figures of a project.
#[derive(Debug, Clone, Copy, PartialEq, Eq, Structural)]
pub struct ProjectStats {
    pub total_rewards_paid: u128,
    pub total_campaigns_created: u32,
    pub total_bugs_fixed: u32,
}

impl FinderStats {
    pub open spec fn spec_zero() -> FinderStats {
        FinderStats { total_rewards_earned: 0, total_bugs_found: 0, total_severity_score: 0 }
    }

    /// Whether the three additions stay in range.
    pub open spec fn fits(self, reward: u128, bugs: u32, severity: u8) -> bool {
        &&& self.total_rewards_earned + reward <= u128::MAX
        &&& self.total_bugs_found + bugs <= u32::MAX
        &&& self.total_severity_score + severity <= u32::MAX
    }

    /// The figures after `reward`, `bugs` and `severity` were added.
    pub open spec fn plus(self, reward: u128, bugs: u32, severity: u8) -> FinderStats
        recommends
            self.fits(reward, bugs, severity),
    {
        FinderStats {
            total_rewards_earned: (self.total_rewards_earned + reward) as u128,
            total_bugs_found: (self.total_bugs_found + bugs) as u32,
            total_severity_score: (self.total_severity_score + severity) as u32,
        }
    }
}

impl ProjectStats {
    pub open spec fn spec_zero() -> ProjectStats {
        ProjectStats { total_rewards_paid: 0, total_campaigns_created: 0, total_bugs_fixed: 0 }
    }

    /// Whether the three additions stay in range.
    pub open spec fn fits(self, paid: u128, campaigns: u32, bugs_fixed: u32) -> bool {
        &&& self.total_rewards_paid + paid <= u128::MAX
        &&& self.total_campaigns_created + campaigns <= u32::MAX
        &&& self.total_bugs_fixed + bugs_fixed <= u32::MAX
    }

    /// The figures after `paid`, `campaigns` and `bugs_fixed` were added.
    pub open spec fn plus(self, paid: u128, campaigns: u32, bugs_fixed: u32) -> ProjectStats
        recommends
            self.fits(paid, campaigns, bugs_fixed),
    {
        ProjectStats {
            total_rewards_paid: (self.total_rewards_paid + paid) as u128,
            total_campaigns_created: (self.total_campaigns_created + campaigns) as u32,
            total_bugs_fixed: (self.total_bugs_fixed + bugs_fixed) as u32,
        }
    }
}

impl Default for FinderStats {
    fn default() -> (r: FinderStats)
        ensures
            r == FinderStats::spec_zero(),
    {
        FinderStats { total_rewards_earned: 0, total_bugs_found: 0, total_severity_score: 0 }
    }
}

impl Default for ProjectStats {
    fn default() -> (r: ProjectStats)
        ensures
            r == ProjectStats::spec_zero(),
    {
        ProjectStats { total_rewards_paid: 0, total_campaigns_created: 0, total_bugs_fixed: 0 }
    }
}

/// Whether the table holds a record for the account `who`.
pub open spec fn ledger_has<S>(t: Seq<(String, S)>, who: Seq<char>) -> bool {
    exists|i: int| 0 <= i < t.len() && (#[trigger] t[i]).0@ == who
}

/// The place of the record for `who`, where there is one.
pub open spec fn ledger_pos<S>(t: Seq<(String, S)>, who: Seq<char>) -> int {
    choose|i: int| 0 <= i < t.len() && (#[trigger] t[i]).0@ == who
}

/// No account has two records.
pub open spec fn ledger_distinct<S>(t: Seq<(String, S)>) -> bool {
    forall|i: int, j: int| 0 <= i < j < t.len() ==> (#[trigger] t[i]).0@ != (#[trigger] t[j]).0@
}

/// The figures of `who`: those of its record, or zero where it has none.
pub open spec fn finder_stats_of(t: Seq<(String, FinderStats)>, who: Seq<char>) -> FinderStats {
    if ledger_has(t, who) {
        t[ledger_pos(t, who)].1
    } else {
        FinderStats::spec_zero()
    }
}

/// The figures of `who`: those of its record, or zero where it has none.
pub open spec fn project_stats_of(t: Seq<(String, ProjectStats)>, who: Seq<char>) -> ProjectStats {
    if ledger_has(t, who) {
        t[ledger_pos(t, who)].1
    } else {
        ProjectStats::spec_zero()
    }
}

/// The table after the record of `who` was set to `stats`: changed in place
/// where `who` had a record, added at the end where it had none.
pub open spec fn ledger_put<S>(t: Seq<(String, S)>, who: String, stats: S) -> Seq<(String, S)> {
    if ledger_has(t, who@) {
        t.update(ledger_pos(t, who@), (t[ledger_pos(t, who@)].0, stats))
    } else {
        t.push((who, stats))
    }
}

/// In a table without double records, the record of an account is found at
/// one place only.
pub proof fn lemma_ledger_pos_unique<S>(t: Seq<(String, S)>, who: Seq<char>, i: int)
    requires
        ledger_distinct(t),
        0 <= i < t.len(),
        t[i].0@ == who,
    ensures
        ledger_has(t, who),
        ledger_pos(t, who) == i,
{
    let p = ledger_pos(t, who);
    if p < i {
        assert(t[p].0@ != t[i].0@);
    } else if i < p {
        assert(t[i].0@ != t[p].0@);
    }
}

/// Setting a record keeps the table free of double records, changes the
/// figures of that account and of no other.
pub proof fn lemma_ledger_put<S>(t: Seq<(String, S)>, who: String, stats: S)
    requires
        ledger_distinct(t),
    ensures
        ledger_distinct(ledger_put(t, who, stats)),
        ledger_has(ledger_put(t, who, stats), who@),
        ledger_put(t, who, stats)[ledger_pos(ledger_put(t, who, stats), who@)].1 == stats,
        forall|other: Seq<char>|
            other != who@ ==> (ledger_has(ledger_put(t, who, stats), other) <==> ledger_has(t, other)),
        forall|other: Seq<char>|
            other != who@ && ledger_has(t, other) ==> ledger_put(t, who, stats)[ledger_pos(
                ledger_put(t, who, stats),
                other,
            )].1 == t[ledger_pos(t, other)].1,
{
    let u = ledger_put(t, who, stats);
    let at = if ledger_has(t, who@) { ledger_pos(t, who@) } else { t.len() as int };
    assert(u.len() >= t.len());
    assert(u[at].0@ == who@);
    assert(forall|k: int| 0 <= k < t.len() ==> (#[trigger] u[k]).0@ == t[k].0@);
    assert(ledger_distinct(u)) by {
        assert forall|i: int, j: int| 0 <= i < j < u.len() implies (#[trigger] u[i]).0@ != (
        #[trigger] u[j]).0@ by {
            if j < t.len() {
                assert(t[i].0@ != t[j].0@);
            } else {
                assert(t[i].0@ != who@);
            }
        }
    }
    lemma_ledger_pos_unique(u, who@, at);
    assert forall|other: Seq<char>| other != who@ implies (ledger_has(u, other) <==> ledger_has(
        t,
        other,
    )) by {
        if ledger_has(t, other) {
            let p = ledger_pos(t, other);
            assert(u[p].0@ == other);
        }
        if ledger_has(u, other) {
            let p = ledger_pos(u, other);
            assert(p < t.len());
            assert(t[p].0@ == other);
        }
    }
    assert forall|other: Seq<char>| other != who@ && ledger_has(t, other) implies u[ledger_pos(
        u,
        other,
    )].1 == t[ledger_pos(t, other)].1 by {
        let p = ledger_pos(t, other);
        assert(u[p].0@ == other);
        lemma_ledger_pos_unique(u, other, p);
    }
}

/// Finds the record of `who`.
pub fn ledger_find<S>(t: &Vec<(String, S)>, who: &String) -> (r: Option<usize>)
    ensures
        r.is_some() == ledger_has(t@, who@),
        r matches Some(i) ==> i < t.len() && t@[i as int].0@ == who@,
        ledger_distinct(t@) && r.is_some() ==> r.unwrap() == ledger_pos(t@, who@),
{
    let mut i: usize = 0;
    while i < t.len()
        invariant
            i <= t.len(),
            forall|k: int| 0 <= k < i ==> (#[trigger] t@[k]).0@ != who@,
        decreases t.len() - i,
    {
        if t[i].0 == *who {
            proof {
                if ledger_distinct(t@) {
                    lemma_ledger_pos_unique(t@, who@, i as int);
                }
            }
            return Some(i);
        }
        i += 1;
    }
    None
}

impl Contract {
    /// The figures of the researcher `who`.
    pub open spec fn finder(&self, who: Seq<char>) -> FinderStats {
        finder_stats_of(self.finder_stats@, who)
    }

    /// The figures of the project `who`.
    pub open spec fn project(&self, who: Seq<char>) -> ProjectStats {
        project_stats_of(self.project_stats@, who)
    }

    /// Adds to the figures of the researcher `finder`, whose record is made
    /// where there was none.
    pub fn update_finder_stats(&mut self, finder: &String, reward: u128, bugs: u32, severity: u8)
        requires
            ledger_distinct(old(self).finder_stats@),
            old(self).finder(finder@).fits(reward, bugs, severity),
        ensures
            final(self).finder_stats@ == ledger_put(
                old(self).finder_stats@,
                *finder,
                old(self).finder(finder@).plus(reward, bugs, severity),
            ),
            *final(self) == (Contract { finder_stats: final(self).finder_stats, ..*old(self) }),
    {
        match ledger_find(&self.finder_stats, finder) {
            Some(i) => {
                let cur = self.finder_stats[i].1;
                self.finder_stats[i].1 = FinderStats {
                    total_rewards_earned: cur.total_rewards_earned + reward,
                    total_bugs_found: cur.total_bugs_found + bugs,
                    total_severity_score: cur.total_severity_score + severity as u32,
                };
                assert(final(self).finder_stats@ =~= ledger_put(
                    old(self).finder_stats@,
                    *finder,
                    old(self).finder(finder@).plus(reward, bugs, severity),
                ));
            },
            None => {
                self.finder_stats.push(
                    (
                        finder.clone(),
                        FinderStats {
                            total_rewards_earned: reward,
                            total_bugs_found: bugs,
                            total_severity_score: severity as u32,
                        },
                    ),
                );
            },
        }
    }

    /// Adds to the figures of the project `project`, whose record is made
    /// where there was none.
    pub fn update_project_stats(&mut self, project: &String, paid: u128, campaigns: u32, bugs_fixed: u32)
        requires
            ledger_distinct(old(self).project_stats@),
            old(self).project(project@).fits(paid, campaigns, bugs_fixed),
        ensures
            final(self).project_stats@ == ledger_put(
                old(self).project_stats@,
                *project,
                old(self).project(project@).plus(paid, campaigns, bugs_fixed),
            ),
            *final(self) == (Contract { project_stats: final(self).project_stats, ..*old(self) }),
    {
        match ledger_find(&self.project_stats, project) {
            Some(i) => {
                let cur = self.project_stats[i].1;
                self.project_stats[i].1 = ProjectStats {
                    total_rewards_paid: cur.total_rewards_paid + paid,
                    total_campaigns_created: cur.total_campaigns_created + campaigns,
                    total_bugs_fixed: cur.total_bugs_fixed + bugs_fixed,
                };
                assert(final(self).project_stats@ =~= ledger_put(
                    old(self).project_stats@,
                    *project,
                    old(self).project(project@).plus(paid, campaigns, bugs_fixed),
                ));
            },
            None => {
                self.project_stats.push(
                    (
                        project.clone(),
                        ProjectStats {
                            total_rewards_paid: paid,
                            total_campaigns_created: campaigns,
                            total_bugs_fixed: bugs_fixed,
                        },
                    ),
                );
            },
        }
    }

    /// Counts one more campaign for the project `project`.
    pub fn increment_project_campaigns(&mut self, project: &String)
        requires
            ledger_distinct(old(self).project_stats@),
            old(self).project(project@).fits(0, 1, 0),
        ensures
            final(self).project_stats@ == ledger_put(
                old(self).project_stats@,
                *project,
                old(self).project(project@).plus(0, 1, 0),
            ),
            *final(self) == (Contract { project_stats: final(self).project_stats, ..*old(self) }),
    {
        self.update_project_stats(project, 0, 1, 0);
    }

    /// Whether the figures of `finder` and of `project` have room for a
    /// payout of `gross` of which `net` goes to the researcher.
    pub open spec fn payout_fits(&self, finder: Seq<char>, project: Seq<char>, net: u128, gross: u128, severity: u8) -> bool {
        &&& self.finder(finder).fits(net, 1, severity)
        &&& self.project(project).fits(gross, 0, 1)
    }

    /// The figures of the researcher `who`: zero where nothing was written.
    pub fn finder_stats_for(&self, who: &String) -> (r: FinderStats)
        requires
            ledger_distinct(self.finder_stats@),
        ensures
            r == self.finder(who@),
    {
        match ledger_find(&self.finder_stats, who) {
            Some(i) => self.finder_stats[i].1,
            None => FinderStats::default(),
        }
    }

    /// The figures of the project `who`: zero where nothing was written.
    pub fn project_stats_for(&self, who: &String) -> (r: ProjectStats)
        requires
            ledger_distinct(self.project_stats@),
        ensures
            r == self.project(who@),
    {
        match ledger_find(&self.project_stats, who) {
            Some(i) => self.project_stats[i].1,
            None => ProjectStats::default(),
        }
    }
}

} // verus!
