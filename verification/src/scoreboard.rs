//! The scoreboard sidebar: its scores, the teams that give its lines their text, and the purse.

use vstd::prelude::*;

use crate::coins::{coins_text, grouped, law_separators_come_out_again, lemma_grouped_chars};
use crate::items::{first_where, lemma_first_where};
use crate::text::{
    begins_with, chars_of, decimal, is_space, lemma_decimal_value, lemma_word_end, parse_u64,
    parsed_u64, remove_commas, remove_mc_colors, same_text, split_whitespace, starts_with,
    text_between, texts, trim, trimmed, trimmed_start, without_colors, without_commas, word_end,
    words,
};

verus! {

/// One score: how many points `owner` has in `objective`, and the text it is displayed with.
pub struct ScoreEntry {
    pub objective: String,
    pub owner: String,
    pub display: String,
    pub score: u32,
}

/// A team: the texts put before and after its members, and the members.
pub struct Team {
    pub name: String,
    pub prefix: String,
    pub suffix: String,
    pub members: Vec<String>,
}

/// The scores and teams that the server has announced, and the objective shown in the sidebar.
pub struct Scoreboard {
    pub scores: Vec<ScoreEntry>,
    pub teams: Vec<Team>,
    pub sidebar: Option<String>,
}

/// One score, as the contracts speak of it.
#[verifier::ext_equal]
pub struct ScoreView {
    pub objective: Seq<char>,
    pub owner: Seq<char>,
    pub display: Seq<char>,
    pub score: u32,
}

/// A team, as the contracts speak of it.
#[verifier::ext_equal]
pub struct TeamView {
    pub name: Seq<char>,
    pub prefix: Seq<char>,
    pub suffix: Seq<char>,
    pub members: Seq<Seq<char>>,
}

/// The scoreboard, as the contracts speak of it.
#[verifier::ext_equal]
pub struct ScoreboardView {
    pub scores: Seq<ScoreView>,
    pub teams: Seq<TeamView>,
    pub sidebar: Option<Seq<char>>,
}

impl View for ScoreEntry {
    type V = ScoreView;

    open spec fn view(&self) -> ScoreView {
        ScoreView {
            objective: self.objective@,
            owner: self.owner@,
            display: self.display@,
            score: self.score,
        }
    }
}

impl View for Team {
    type V = TeamView;

    open spec fn view(&self) -> TeamView {
        TeamView {
            name: self.name@,
            prefix: self.prefix@,
            suffix: self.suffix@,
            members: texts(self.members@),
        }
    }
}

/// The scores of a list.
pub open spec fn scores_of(entries: Seq<ScoreEntry>) -> Seq<ScoreView> {
    entries.map_values(|e: ScoreEntry| e@)
}

/// The teams of a list.
pub open spec fn teams_of(teams: Seq<Team>) -> Seq<TeamView> {
    teams.map_values(|t: Team| t@)
}

/// The text of an optional string.
pub open spec fn opt_text(s: Option<String>) -> Option<Seq<char>> {
    match s {
        Some(t) => Some(t@),
        None => None,
    }
}

impl View for Scoreboard {
    type V = ScoreboardView;

    open spec fn view(&self) -> ScoreboardView {
        ScoreboardView {
            scores: scores_of(self.scores@),
            teams: teams_of(self.teams@),
            sidebar: opt_text(self.sidebar),
        }
    }
}

// ---- Lists without repeated keys ----

/// No two elements of `s` have the same key.
pub open spec fn keys_differ<A, K>(s: Seq<A>, key: spec_fn(A) -> K) -> bool {
    forall|i: int, j: int|
        #![trigger s[i], s[j]]
        0 <= i < j < s.len() ==> key(s[i]) != key(s[j])
}

/// Taking elements out leaves the keys distinct.
pub proof fn lemma_filter_keeps_keys_distinct<A, K>(
    s: Seq<A>,
    keep: spec_fn(A) -> bool,
    key: spec_fn(A) -> K,
)
    requires
        keys_differ(s, key),
    ensures
        keys_differ(s.filter(keep), key),
        forall|i: int| 0 <= i < s.filter(keep).len() ==> s.contains(#[trigger] s.filter(keep)[i]),
    decreases s.len(),
{
    reveal(Seq::filter);
    if s.len() > 0 {
        let head = s.drop_last();
        lemma_filter_keeps_keys_distinct(head, keep, key);
        let out = s.filter(keep);
        assert forall|i: int| 0 <= i < out.len() implies s.contains(#[trigger] out[i]) by {
            if i < head.filter(keep).len() {
                assert(head.contains(head.filter(keep)[i]));
                let k = choose|k: int| 0 <= k < head.len() && head[k] == head.filter(keep)[i];
                assert(s[k] == out[i]);
            } else {
                assert(s[s.len() - 1] == out[i]);
            }
        }
        assert forall|i: int, j: int|
            #![trigger out[i], out[j]]
            0 <= i < j < out.len() implies key(out[i]) != key(out[j]) by {
            if j == head.filter(keep).len() {
                assert(head.contains(head.filter(keep)[i]));
                let k = choose|k: int| 0 <= k < head.len() && head[k] == head.filter(keep)[i];
                assert(key(s[k]) != key(s[s.len() - 1]));
            } else {
                assert(key(head.filter(keep)[i]) != key(head.filter(keep)[j]));
            }
        }
    }
}

/// Putting an element, in the place of the one with its key or else at the end, leaves the keys
/// distinct.
pub proof fn lemma_put_keeps_keys_distinct<A, K>(s: Seq<A>, a: A, key: spec_fn(A) -> K)
    requires
        keys_differ(s, key),
    ensures
        match first_where(s, |b: A| key(b) == key(a), 0) {
            Some(i) => keys_differ(s.update(i, a), key),
            None => keys_differ(s.push(a), key),
        },
{
    let same = |b: A| key(b) == key(a);
    lemma_first_where(s, same, 0);
    match first_where(s, same, 0) {
        Some(i) => {
            assert(same(s[i]));
            let out = s.update(i, a);
            assert forall|m: int, n: int|
                #![trigger out[m], out[n]]
                0 <= m < n < out.len() implies key(out[m]) != key(out[n]) by {
                assert(key(s[m]) != key(s[n]));
            }
        },
        None => {
            let out = s.push(a);
            assert forall|m: int, n: int|
                #![trigger out[m], out[n]]
                0 <= m < n < out.len() implies key(out[m]) != key(out[n]) by {
                assert(!same(s[m]));
                if n < s.len() {
                    assert(key(s[m]) != key(s[n]));
                }
            }
        },
    }
}

/// Putting or replacing a score leaves the scoreboard well formed.
proof fn lemma_with_score_keeps_form(
    board: ScoreboardView,
    objective: Seq<char>,
    owner: Seq<char>,
    display: Option<Seq<char>>,
    score: u32,
)
    requires
        board.well_formed(),
    ensures
        board.with_score(objective, owner, display, score).well_formed(),
{
    let key = |e: ScoreView| (e.objective, e.owner);
    let shown = match display {
        Some(d) => if d.len() > 0 {
            d
        } else {
            owner
        },
        None => owner,
    };
    let entry = ScoreView { objective, owner, display: shown, score };
    lemma_put_keeps_keys_distinct(board.scores, entry, key);
    assert((|e: ScoreView| key(e) == key(entry)) =~= (|e: ScoreView| is_score_of(e, objective, owner)));
}

/// Taking scores back leaves the scoreboard well formed.
proof fn lemma_without_score_keeps_form(
    board: ScoreboardView,
    objective: Option<Seq<char>>,
    owner: Seq<char>,
)
    requires
        board.well_formed(),
    ensures
        board.without_score(objective, owner).well_formed(),
{
    lemma_filter_keeps_keys_distinct(
        board.scores,
        |e: ScoreView| !is_reset(e, objective, owner),
        |e: ScoreView| (e.objective, e.owner),
    );
}

/// Putting or replacing a team leaves the scoreboard well formed.
proof fn lemma_put_team_keeps_form(board: ScoreboardView, team: TeamView)
    requires
        board.well_formed(),
    ensures
        board.put_team(team).well_formed(),
{
    let key = |t: TeamView| t.name;
    lemma_put_keeps_keys_distinct(board.teams, team, key);
    assert((|t: TeamView| key(t) == key(team)) =~= (|t: TeamView| t.name == team.name));
}

/// Forgetting a team leaves the scoreboard well formed.
proof fn lemma_remove_team_keeps_form(board: ScoreboardView, name: Seq<char>)
    requires
        board.well_formed(),
    ensures
        board.with_team(name, TeamMethodView::Remove).well_formed(),
{
    lemma_filter_keeps_keys_distinct(
        board.teams,
        |t: TeamView| t.name != name,
        |t: TeamView| t.name,
    );
}

/// The team found under a name has that name.
proof fn lemma_team_at_has_name(teams: Seq<TeamView>, name: Seq<char>)
    ensures
        match team_at(teams, name) {
            Some(i) => 0 <= i < teams.len() && teams[i].name == name,
            None => true,
        },
{
    lemma_first_where(teams, |t: TeamView| t.name == name, 0);
}

// ---- What the scoreboard announcements do ----

/// `e` is the score of `owner` in `objective`.
pub open spec fn is_score_of(e: ScoreView, objective: Seq<char>, owner: Seq<char>) -> bool {
    e.objective == objective && e.owner == owner
}

/// Where the score of `owner` in `objective` is kept.
pub open spec fn score_at(
    scores: Seq<ScoreView>,
    objective: Seq<char>,
    owner: Seq<char>,
) -> Option<int> {
    first_where(scores, |e: ScoreView| is_score_of(e, objective, owner), 0)
}

/// Where the team `name` is kept.
pub open spec fn team_at(teams: Seq<TeamView>, name: Seq<char>) -> Option<int> {
    first_where(teams, |t: TeamView| t.name == name, 0)
}

/// What a team announcement says.
pub enum TeamMethodView {
    Add(Seq<char>, Seq<char>, Seq<Seq<char>>),
    Remove,
    Change(Seq<char>, Seq<char>),
    Join(Seq<Seq<char>>),
    Leave(Seq<Seq<char>>),
}

impl ScoreboardView {
    /// No owner has two scores in one objective, and no two teams have the same name.
    pub open spec fn well_formed(self) -> bool {
        &&& keys_differ(self.scores, |e: ScoreView| (e.objective, e.owner))
        &&& keys_differ(self.teams, |t: TeamView| t.name)
    }

    /// The scoreboard with this score put or replaced. Without a display text, or with an empty
    /// one, the owner's name is displayed.
    pub open spec fn with_score(
        self,
        objective: Seq<char>,
        owner: Seq<char>,
        display: Option<Seq<char>>,
        score: u32,
    ) -> ScoreboardView {
        let shown = match display {
            Some(d) => if d.len() > 0 {
                d
            } else {
                owner
            },
            None => owner,
        };
        let entry = ScoreView { objective, owner, display: shown, score };
        ScoreboardView {
            scores: match score_at(self.scores, objective, owner) {
                Some(i) => self.scores.update(i, entry),
                None => self.scores.push(entry),
            },
            ..self
        }
    }

    /// The scoreboard without the score of `owner` in `objective`, or, without an objective,
    /// without any score of `owner`.
    pub open spec fn without_score(
        self,
        objective: Option<Seq<char>>,
        owner: Seq<char>,
    ) -> ScoreboardView {
        ScoreboardView {
            scores: self.scores.filter(|e: ScoreView| !is_reset(e, objective, owner)),
            ..self
        }
    }

    /// The scoreboard after a team announcement.
    pub open spec fn with_team(self, name: Seq<char>, method: TeamMethodView) -> ScoreboardView {
        let at = team_at(self.teams, name);
        let known = match at {
            Some(i) => self.teams[i],
            None => TeamView {
                name,
                prefix: Seq::empty(),
                suffix: Seq::empty(),
                members: Seq::empty(),
            },
        };
        match method {
            TeamMethodView::Add(prefix, suffix, members) => self.put_team(
                TeamView { name, prefix, suffix, members },
            ),
            TeamMethodView::Remove => ScoreboardView {
                teams: self.teams.filter(|t: TeamView| t.name != name),
                ..self
            },
            TeamMethodView::Change(prefix, suffix) => self.put_team(
                TeamView { prefix, suffix, ..known },
            ),
            TeamMethodView::Join(members) => self.put_team(
                TeamView { members: known.members + members, ..known },
            ),
            TeamMethodView::Leave(leaving) => if at is Some {
                self.put_team(
                    TeamView {
                        members: known.members.filter(|m: Seq<char>| !leaving.contains(m)),
                        ..known
                    },
                )
            } else {
                self
            },
        }
    }

    /// The scoreboard with this team put or replaced.
    pub open spec fn put_team(self, team: TeamView) -> ScoreboardView {
        ScoreboardView {
            teams: match team_at(self.teams, team.name) {
                Some(i) => self.teams.update(i, team),
                None => self.teams.push(team),
            },
            ..self
        }
    }
}

/// `e` goes when the scores of `owner` in `objective` are reset.
pub open spec fn is_reset(e: ScoreView, objective: Option<Seq<char>>, owner: Seq<char>) -> bool {
    e.owner == owner && match objective {
        Some(name) => e.objective == name,
        None => true,
    }
}

/// What a team announcement says.
#[derive(Debug, PartialEq)]
pub enum TeamMethod {
    /// A team with its prefix, suffix and members.
    Add(String, String, Vec<String>),
    Remove,
    /// A new prefix and suffix.
    Change(String, String),
    Join(Vec<String>),
    Leave(Vec<String>),
}

impl View for TeamMethod {
    type V = TeamMethodView;

    open spec fn view(&self) -> TeamMethodView {
        match self {
            TeamMethod::Add(p, s, m) => TeamMethodView::Add(p@, s@, texts(m@)),
            TeamMethod::Remove => TeamMethodView::Remove,
            TeamMethod::Change(p, s) => TeamMethodView::Change(p@, s@),
            TeamMethod::Join(m) => TeamMethodView::Join(texts(m@)),
            TeamMethod::Leave(m) => TeamMethodView::Leave(texts(m@)),
        }
    }
}

impl ScoreEntry {
    /// A copy that says the same.
    fn copy(&self) -> (r: ScoreEntry)
        ensures
            r@ == self@,
    {
        ScoreEntry {
            objective: self.objective.clone(),
            owner: self.owner.clone(),
            display: self.display.clone(),
            score: self.score,
        }
    }
}

/// A copy of a list of texts.
pub fn copy_texts(v: &Vec<String>) -> (r: Vec<String>)
    ensures
        texts(r@) == texts(v@),
{
    let mut r: Vec<String> = Vec::new();
    let mut i: usize = 0;
    while i < v.len()
        invariant
            i <= v@.len(),
            texts(r@) == texts(v@.take(i as int)),
        decreases v@.len() - i,
    {
        let ghost before = r@;
        r.push(v[i].clone());
        proof {
            assert(texts(r@) =~= texts(before).push(v@[i as int]@));
            assert(texts(v@.take(i + 1)) =~= texts(v@.take(i as int)).push(v@[i as int]@));
        }
        i = i + 1;
    }
    proof {
        assert(v@.take(v@.len() as int) =~= v@);
    }
    r
}

/// Whether `text` is in `list`.
pub fn list_contains(list: &Vec<String>, text: &str) -> (r: bool)
    ensures
        r == texts(list@).contains(text@),
{
    let mut i: usize = 0;
    while i < list.len()
        invariant
            i <= list@.len(),
            forall|k: int| 0 <= k < i ==> texts(list@)[k] != text@,
        decreases list@.len() - i,
    {
        if same_text(list[i].as_str(), text) {
            proof {
                assert(texts(list@)[i as int] == text@);
            }
            return true;
        }
        i = i + 1;
    }
    false
}

impl Team {
    /// A copy that says the same.
    fn copy(&self) -> (r: Team)
        ensures
            r@ == self@,
    {
        Team {
            name: self.name.clone(),
            prefix: self.prefix.clone(),
            suffix: self.suffix.clone(),
            members: copy_texts(&self.members),
        }
    }
}

impl Scoreboard {
    /// A scoreboard of which nothing is known yet.
    pub fn new() -> (r: Scoreboard)
        ensures
            r@ == (ScoreboardView {
                scores: Seq::empty(),
                teams: Seq::empty(),
                sidebar: None,
            }),
            r@.well_formed(),
    {
        let r = Scoreboard { scores: Vec::new(), teams: Vec::new(), sidebar: None };
        proof {
            assert(r@ =~= ScoreboardView {
                scores: Seq::empty(),
                teams: Seq::empty(),
                sidebar: None,
            });
        }
        r
    }

    /// The objective `name` is shown in the sidebar from now on.
    pub fn set_sidebar(&mut self, name: &str)
        requires
            old(self)@.well_formed(),
        ensures
            final(self)@ == (ScoreboardView { sidebar: Some(name@), ..old(self)@ }),
            final(self)@.well_formed(),
    {
        self.sidebar = Some(name.to_owned());
    }

    /// Where the score of `owner` in `objective` is kept.
    fn position_of_score(&self, objective: &str, owner: &str) -> (r: Option<usize>)
        ensures
            match r {
                Some(i) => score_at(self@.scores, objective@, owner@) == Some(i as int) && i
                    < self.scores@.len(),
                None => score_at(self@.scores, objective@, owner@) is None,
            },
    {
        let ghost all = self@.scores;
        let ghost wanted = |e: ScoreView| is_score_of(e, objective@, owner@);
        let mut i: usize = 0;
        while i < self.scores.len()
            invariant
                i <= self.scores@.len(),
                all == scores_of(self.scores@),
                wanted == (|e: ScoreView| is_score_of(e, objective@, owner@)),
                score_at(all, objective@, owner@) == first_where(all, wanted, i as int),
            decreases self.scores@.len() - i,
        {
            if same_text(self.scores[i].objective.as_str(), objective) && same_text(
                self.scores[i].owner.as_str(),
                owner,
            ) {
                return Some(i);
            }
            i = i + 1;
        }
        None
    }

    /// Where the team `name` is kept.
    fn position_of_team(&self, name: &str) -> (r: Option<usize>)
        ensures
            match r {
                Some(i) => team_at(self@.teams, name@) == Some(i as int) && i < self.teams@.len(),
                None => team_at(self@.teams, name@) is None,
            },
    {
        let ghost all = self@.teams;
        let ghost wanted = |t: TeamView| t.name == name@;
        let mut i: usize = 0;
        while i < self.teams.len()
            invariant
                i <= self.teams@.len(),
                all == teams_of(self.teams@),
                wanted == (|t: TeamView| t.name == name@),
                team_at(all, name@) == first_where(all, wanted, i as int),
            decreases self.teams@.len() - i,
        {
            if same_text(self.teams[i].name.as_str(), name) {
                return Some(i);
            }
            i = i + 1;
        }
        None
    }

    /// The server announces a score.
    pub fn set_score(&mut self, objective: &str, owner: &str, display: &Option<String>, score: u32)
        requires
            old(self)@.well_formed(),
        ensures
            final(self)@ == old(self)@.with_score(objective@, owner@, opt_text(*display), score),
            final(self)@.well_formed(),
    {
        let shown = match display {
            Some(d) => if d.as_str().is_empty() {
                owner.to_owned()
            } else {
                d.clone()
            },
            None => owner.to_owned(),
        };
        let entry = ScoreEntry {
            objective: objective.to_owned(),
            owner: owner.to_owned(),
            display: shown,
            score,
        };
        let ghost before = self@;
        let ghost target = before.with_score(objective@, owner@, opt_text(*display), score);
        proof {
            lemma_with_score_keeps_form(before, objective@, owner@, opt_text(*display), score);
        }
        match self.position_of_score(objective, owner) {
            Some(i) => {
                self.scores.set(i, entry);
                proof {
                    assert(self@.scores =~= target.scores);
                }
            },
            None => {
                self.scores.push(entry);
                proof {
                    assert(self@.scores =~= target.scores);
                }
            },
        }
    }

    /// The server takes a score back: that of `owner` in `objective`, or in every objective.
    pub fn reset_score(&mut self, objective: &Option<String>, owner: &str)
        requires
            old(self)@.well_formed(),
        ensures
            final(self)@ == old(self)@.without_score(opt_text(*objective), owner@),
            final(self)@.well_formed(),
    {
        let ghost before = self@;
        let ghost keep = |e: ScoreView| !is_reset(e, opt_text(*objective), owner@);
        let mut kept: Vec<ScoreEntry> = Vec::new();
        let mut i: usize = 0;
        proof {
            assert(scores_of(kept@) =~= before.scores.take(0).filter(keep)) by {
                reveal(Seq::filter);
            }
        }
        while i < self.scores.len()
            invariant
                i <= self.scores@.len(),
                before == self@,
                keep == (|e: ScoreView| !is_reset(e, opt_text(*objective), owner@)),
                scores_of(kept@) == before.scores.take(i as int).filter(keep),
            decreases self.scores@.len() - i,
        {
            let ghost kept_before = kept@;
            let entry = &self.scores[i];
            let goes = same_text(entry.owner.as_str(), owner) && match objective {
                Some(name) => same_text(entry.objective.as_str(), name.as_str()),
                None => true,
            };
            proof {
                assert(before.scores.take(i + 1).drop_last() =~= before.scores.take(i as int));
                assert(before.scores.take(i + 1).last() == entry@);
                reveal(Seq::filter);
            }
            if !goes {
                kept.push(entry.copy());
                proof {
                    assert(scores_of(kept@) =~= scores_of(kept_before).push(entry@));
                }
            }
            i = i + 1;
        }
        proof {
            assert(before.scores.take(before.scores.len() as int) =~= before.scores);
            lemma_without_score_keeps_form(before, opt_text(*objective), owner@);
        }
        self.scores = kept;
    }

    /// Put a team, or replace the one with its name.
    fn put_team(&mut self, team: Team)
        requires
            old(self)@.well_formed(),
        ensures
            final(self)@ == old(self)@.put_team(team@),
            final(self)@.well_formed(),
    {
        let ghost before = self@;
        proof {
            lemma_put_team_keeps_form(before, team@);
        }
        match self.position_of_team(team.name.as_str()) {
            Some(i) => {
                self.teams.set(i, team);
            },
            None => {
                self.teams.push(team);
            },
        }
        proof {
            assert(self@.teams =~= before.put_team(team@).teams);
        }
    }

    /// The team `name` as it is known, or without any text and members.
    fn known_team(&self, name: &str) -> (r: Team)
        ensures
            r@ == match team_at(self@.teams, name@) {
                Some(i) => self@.teams[i],
                None => (TeamView {
                    name: name@,
                    prefix: Seq::empty(),
                    suffix: Seq::empty(),
                    members: Seq::empty(),
                }),
            },
    {
        match self.position_of_team(name) {
            Some(i) => self.teams[i].copy(),
            None => {
                let r = Team {
                    name: name.to_owned(),
                    prefix: String::new(),
                    suffix: String::new(),
                    members: Vec::new(),
                };
                proof {
                    assert(texts(r.members@) =~= Seq::empty());
                }
                r
            },
        }
    }

    /// The server announces a team, or a change of one.
    pub fn set_team(&mut self, name: &str, method: &TeamMethod)
        requires
            old(self)@.well_formed(),
        ensures
            final(self)@ == old(self)@.with_team(name@, method@),
            final(self)@.well_formed(),
    {
        let ghost before = self@;
        let known = self.known_team(name);
        proof {
            lemma_team_at_has_name(before.teams, name@);
        }
        match method {
            TeamMethod::Add(prefix, suffix, members) => {
                self.put_team(
                    Team {
                        name: name.to_owned(),
                        prefix: prefix.clone(),
                        suffix: suffix.clone(),
                        members: copy_texts(members),
                    },
                );
            },
            TeamMethod::Remove => {
                self.remove_team(name);
            },
            TeamMethod::Change(prefix, suffix) => {
                self.put_team(
                    Team {
                        name: known.name,
                        prefix: prefix.clone(),
                        suffix: suffix.clone(),
                        members: known.members,
                    },
                );
            },
            TeamMethod::Join(joining) => {
                let mut members = known.members;
                let ghost start = members@;
                let mut i: usize = 0;
                proof {
                    assert(texts(members@) =~= texts(start) + texts(joining@).take(0));
                }
                while i < joining.len()
                    invariant
                        i <= joining@.len(),
                        texts(members@) == texts(start) + texts(joining@).take(i as int),
                    decreases joining@.len() - i,
                {
                    let ghost so_far = members@;
                    members.push(joining[i].clone());
                    proof {
                        assert(texts(members@) =~= texts(so_far).push(joining@[i as int]@));
                        assert(texts(joining@).take(i + 1) =~= texts(joining@).take(i as int).push(
                            joining@[i as int]@,
                        ));
                        assert(texts(members@) =~= texts(start) + texts(joining@).take(i + 1));
                    }
                    i = i + 1;
                }
                proof {
                    assert(texts(joining@).take(joining@.len() as int) =~= texts(joining@));
                }
                self.put_team(
                    Team {
                        name: known.name,
                        prefix: known.prefix,
                        suffix: known.suffix,
                        members,
                    },
                );
            },
            TeamMethod::Leave(leaving) => {
                if self.position_of_team(name).is_some() {
                    let members = without_members(&known.members, leaving);
                    self.put_team(
                        Team {
                            name: known.name,
                            prefix: known.prefix,
                            suffix: known.suffix,
                            members,
                        },
                    );
                }
            },
        }
    }

    /// Forget the team `name`.
    fn remove_team(&mut self, name: &str)
        requires
            old(self)@.well_formed(),
        ensures
            final(self)@ == old(self)@.with_team(name@, TeamMethodView::Remove),
            final(self)@.well_formed(),
    {
        let ghost before = self@;
        let ghost keep = |t: TeamView| t.name != name@;
        let mut kept: Vec<Team> = Vec::new();
        let mut i: usize = 0;
        proof {
            assert(teams_of(kept@) =~= before.teams.take(0).filter(keep)) by {
                reveal(Seq::filter);
            }
        }
        while i < self.teams.len()
            invariant
                i <= self.teams@.len(),
                before == self@,
                keep == (|t: TeamView| t.name != name@),
                teams_of(kept@) == before.teams.take(i as int).filter(keep),
            decreases self.teams@.len() - i,
        {
            let ghost kept_before = kept@;
            let team = &self.teams[i];
            proof {
                assert(before.teams.take(i + 1).drop_last() =~= before.teams.take(i as int));
                assert(before.teams.take(i + 1).last() == team@);
                reveal(Seq::filter);
            }
            if !same_text(team.name.as_str(), name) {
                kept.push(team.copy());
                proof {
                    assert(teams_of(kept@) =~= teams_of(kept_before).push(team@));
                }
            }
            i = i + 1;
        }
        proof {
            assert(before.teams.take(before.teams.len() as int) =~= before.teams);
            lemma_remove_team_keeps_form(before, name@);
        }
        self.teams = kept;
    }
}

/// The members that are not leaving.
fn without_members(members: &Vec<String>, leaving: &Vec<String>) -> (r: Vec<String>)
    ensures
        texts(r@) == texts(members@).filter(|m: Seq<char>| !texts(leaving@).contains(m)),
{
    let ghost all = texts(members@);
    let ghost keep = |m: Seq<char>| !texts(leaving@).contains(m);
    let mut kept: Vec<String> = Vec::new();
    let mut i: usize = 0;
    proof {
        assert(texts(kept@) =~= all.take(0).filter(keep)) by {
            reveal(Seq::filter);
        }
    }
    while i < members.len()
        invariant
            i <= members@.len(),
            all == texts(members@),
            keep == (|m: Seq<char>| !texts(leaving@).contains(m)),
            texts(kept@) == all.take(i as int).filter(keep),
        decreases members@.len() - i,
    {
        let ghost kept_before = kept@;
        proof {
            assert(all.take(i + 1).drop_last() =~= all.take(i as int));
            assert(all.take(i + 1).last() == members@[i as int]@);
            reveal(Seq::filter);
        }
        if !list_contains(leaving, members[i].as_str()) {
            kept.push(members[i].clone());
            proof {
                assert(texts(kept@) =~= texts(kept_before).push(members@[i as int]@));
            }
        }
        i = i + 1;
    }
    proof {
        assert(all.take(all.len() as int) =~= all);
    }
    kept
}

// ---- The lines of the sidebar ----

/// `sorted` with `e` put behind every score that is not lower.
pub open spec fn insert_ranked(sorted: Seq<ScoreView>, e: ScoreView) -> Seq<ScoreView>
    decreases sorted.len(),
{
    if sorted.len() == 0 || sorted.last().score >= e.score {
        sorted.push(e)
    } else {
        insert_ranked(sorted.drop_last(), e).push(sorted.last())
    }
}

/// The scores from the highest to the lowest, equal ones in the order in which they were first
/// announced.
pub open spec fn ranked(scores: Seq<ScoreView>) -> Seq<ScoreView>
    decreases scores.len(),
{
    if scores.len() == 0 {
        Seq::empty()
    } else {
        insert_ranked(ranked(scores.drop_last()), scores.last())
    }
}

/// The text of the last of the first `n` teams that `member` belongs to: its prefix and suffix.
pub open spec fn team_text_upto(teams: Seq<TeamView>, member: Seq<char>, n: nat) -> Option<
    Seq<char>,
>
    decreases n,
{
    if n == 0 || n > teams.len() {
        None
    } else if teams[n - 1].members.contains(member) {
        Some(teams[n - 1].prefix + teams[n - 1].suffix)
    } else {
        team_text_upto(teams, member, (n - 1) as nat)
    }
}

impl ScoreboardView {
    /// What is shown for a score: the text of its owner's team, or else its display text.
    pub open spec fn line_text(self, e: ScoreView) -> Seq<char> {
        match team_text_upto(self.teams, e.owner, self.teams.len()) {
            Some(text) => text,
            None => e.display,
        }
    }

    /// The scores of the objective shown in the sidebar, from the highest to the lowest.
    pub open spec fn sidebar_scores(self) -> Seq<ScoreView> {
        match self.sidebar {
            Some(name) => ranked(self.scores.filter(|e: ScoreView| e.objective == name)),
            None => Seq::empty(),
        }
    }

    /// The lines of the sidebar, from top to bottom.
    pub open spec fn lines(self) -> Seq<Seq<char>> {
        self.sidebar_scores().map_values(|e: ScoreView| self.line_text(e))
    }
}

/// Where an entry is inserted: behind every score that is not lower, before every lower one.
proof fn lemma_insert_ranked_at(sorted: Seq<ScoreView>, e: ScoreView, at: int)
    requires
        0 <= at <= sorted.len(),
        at > 0 ==> sorted[at - 1].score >= e.score,
        forall|k: int| at <= k < sorted.len() ==> (#[trigger] sorted[k]).score < e.score,
    ensures
        insert_ranked(sorted, e) == sorted.insert(at, e),
    decreases sorted.len(),
{
    if at == sorted.len() {
        assert(sorted.insert(at, e) =~= sorted.push(e));
    } else {
        assert(sorted[sorted.len() - 1].score < e.score);
        lemma_insert_ranked_at(sorted.drop_last(), e, at);
        assert(sorted.drop_last().insert(at, e).push(sorted.last()) =~= sorted.insert(at, e));
    }
}

/// The scores that a list of positions picks.
spec fn picked(entries: Seq<ScoreEntry>, order: Seq<usize>) -> Seq<ScoreView> {
    order.map_values(|k: usize| entries[k as int]@)
}

impl Scoreboard {
    /// The positions of the scores of `objective`, from the highest score to the lowest.
    fn ranking(&self, objective: &str) -> (r: Vec<usize>)
        ensures
            forall|k: int| 0 <= k < r@.len() ==> (#[trigger] r@[k]) < self.scores@.len(),
            picked(self.scores@, r@) == ranked(
                self@.scores.filter(|e: ScoreView| e.objective == objective@),
            ),
    {
        let ghost all = self@.scores;
        let ghost shown = |e: ScoreView| e.objective == objective@;
        let mut order: Vec<usize> = Vec::new();
        let mut i: usize = 0;
        proof {
            assert(all.take(0).filter(shown) =~= Seq::empty()) by {
                reveal(Seq::filter);
            }
            assert(picked(self.scores@, order@) =~= Seq::empty());
        }
        while i < self.scores.len()
            invariant
                i <= self.scores@.len(),
                all == scores_of(self.scores@),
                shown == (|e: ScoreView| e.objective == objective@),
                forall|k: int|
                    0 <= k < order@.len() ==> (#[trigger] order@[k]) < self.scores@.len(),
                picked(self.scores@, order@) == ranked(all.take(i as int).filter(shown)),
            decreases self.scores@.len() - i,
        {
            proof {
                assert(all.take(i + 1).drop_last() =~= all.take(i as int));
                assert(all.take(i + 1).last() == self.scores@[i as int]@);
                reveal(Seq::filter);
            }
            if same_text(self.scores[i].objective.as_str(), objective) {
                let ghost e = self.scores@[i as int]@;
                let ghost sorted = picked(self.scores@, order@);
                let score: u32 = self.scores[i].score;
                let mut at: usize = order.len();
                while at > 0 && self.scores[order[at - 1]].score < score
                    invariant
                        at <= order@.len(),
                        i < self.scores@.len(),
                        e == self.scores@[i as int]@,
                        score == e.score,
                        sorted == picked(self.scores@, order@),
                        forall|k: int|
                            0 <= k < order@.len() ==> (#[trigger] order@[k]) < self.scores@.len(),
                        forall|k: int|
                            at <= k < sorted.len() ==> (#[trigger] sorted[k]).score < e.score,
                    decreases at,
                {
                    at = at - 1;
                }
                proof {
                    assert(at > 0 ==> sorted[at - 1] == self.scores@[order@[at - 1] as int]@);
                    lemma_insert_ranked_at(sorted, e, at as int);
                    let filtered = all.take(i as int).filter(shown);
                    assert(filtered.push(e).drop_last() =~= filtered);
                }
                let ghost before = order@;
                order.insert(at, i);
                proof {
                    assert(picked(self.scores@, order@) =~= sorted.insert(at as int, e));
                }
            }
            i = i + 1;
        }
        proof {
            assert(all.take(all.len() as int) =~= all);
        }
        order
    }

    /// What is shown for a score.
    fn line_for(&self, entry: &ScoreEntry) -> (r: String)
        ensures
            r@ == self@.line_text(entry@),
    {
        let ghost all = self@.teams;
        let mut n: usize = self.teams.len();
        while n > 0
            invariant
                n <= self.teams@.len(),
                all == teams_of(self.teams@),
                team_text_upto(all, entry.owner@, all.len()) == team_text_upto(
                    all,
                    entry.owner@,
                    n as nat,
                ),
            decreases n,
        {
            let team = &self.teams[n - 1];
            proof {
                assert(all[n - 1] == team@);
            }
            if list_contains(&team.members, entry.owner.as_str()) {
                let mut text = team.prefix.clone();
                text.append(team.suffix.as_str());
                return text;
            }
            n = n - 1;
        }
        entry.display.clone()
    }

    /// Get the current lines of the sidebar, from the highest score to the lowest. There are none
    /// as long as it is not known which objective the sidebar shows.
    pub fn get_scoreboard_lines(&self) -> (r: Vec<String>)
        ensures
            texts(r@) == self@.lines(),
    {
        let mut lines: Vec<String> = Vec::new();
        match &self.sidebar {
            Some(name) => {
                let order = self.ranking(name.as_str());
                let ghost sorted = self@.sidebar_scores();
                let mut i: usize = 0;
                while i < order.len()
                    invariant
                        i <= order@.len(),
                        lines@.len() == i,
                        sorted == picked(self.scores@, order@),
                        forall|k: int|
                            0 <= k < order@.len() ==> (#[trigger] order@[k]) < self.scores@.len(),
                        forall|k: int|
                            0 <= k < i ==> (#[trigger] lines@[k])@ == self@.line_text(sorted[k]),
                    decreases order@.len() - i,
                {
                    lines.push(self.line_for(&self.scores[order[i]]));
                    i = i + 1;
                }
                proof {
                    assert(texts(lines@) =~= self@.lines());
                }
            },
            None => {
                proof {
                    assert(texts(lines@) =~= self@.lines());
                }
            },
        }
        lines
    }

    /// The purse that the sidebar shows.
    pub fn get_purse(&self) -> (r: Option<u64>)
        ensures
            r == first_purse(self@.lines(), 0),
    {
        let lines = self.get_scoreboard_lines();
        find_purse(&lines)
    }
}

// ---- The purse ----

/// The first word of `s`, or nothing.
pub open spec fn first_word(s: Seq<char>) -> Seq<char> {
    if words(s).len() > 0 {
        words(s)[0]
    } else {
        Seq::empty()
    }
}

/// The amount behind `label` in a line without color codes and white space around it.
pub open spec fn amount_after(line: Seq<char>, label: Seq<char>) -> Option<u64> {
    if begins_with(line, label) {
        parsed_u64(without_commas(first_word(line.skip(label.len() as int))))
    } else {
        None
    }
}

/// The purse that a line of the sidebar shows, as "Purse: <amount>" or "Piggy: <amount>".
pub open spec fn purse_in_line(line: Seq<char>) -> Option<u64> {
    let clean = trimmed(without_colors(line));
    match amount_after(clean, "Purse: "@) {
        Some(n) => Some(n),
        None => amount_after(clean, "Piggy: "@),
    }
}

/// The purse that the first line at or after `from` shows that shows one.
pub open spec fn first_purse(lines: Seq<Seq<char>>, from: int) -> Option<u64>
    decreases lines.len() - from,
{
    if from < 0 || from >= lines.len() {
        None
    } else {
        match purse_in_line(lines[from]) {
            Some(n) => Some(n),
            None => first_purse(lines, from + 1),
        }
    }
}

/// The amount behind `label`.
fn parse_amount_after(line: &str, label: &str) -> (r: Option<u64>)
    ensures
        r == amount_after(line@, label@),
{
    if !starts_with(line, label) {
        return None;
    }
    let t = chars_of(line);
    let l = chars_of(label);
    let rest = text_between(&t, l.len(), t.len());
    proof {
        assert(rest@ =~= line@.skip(label@.len() as int));
    }
    let parts = split_whitespace(rest.as_str());
    let word = if parts.len() > 0 {
        proof {
            assert(texts(parts@)[0] == parts@[0]@);
        }
        parts[0].clone()
    } else {
        String::new()
    };
    let plain = remove_commas(word.as_str());
    parse_u64(plain.as_str())
}

/// The purse that the first line that shows one shows. Color codes and thousands separators do
/// not matter.
pub fn find_purse(lines: &Vec<String>) -> (r: Option<u64>)
    ensures
        r == first_purse(texts(lines@), 0),
{
    let mut i: usize = 0;
    while i < lines.len()
        invariant
            i <= lines@.len(),
            first_purse(texts(lines@), 0) == first_purse(texts(lines@), i as int),
        decreases lines@.len() - i,
    {
        let plain = remove_mc_colors(lines[i].as_str());
        let clean = trim(plain.as_str());
        proof {
            assert(texts(lines@)[i as int] == lines@[i as int]@);
        }
        match parse_amount_after(clean.as_str(), "Purse: ") {
            Some(n) => {
                return Some(n);
            },
            None => {},
        }
        match parse_amount_after(clean.as_str(), "Piggy: ") {
            Some(n) => {
                return Some(n);
            },
            None => {},
        }
        i = i + 1;
    }
    None
}

// ---- Laws ----

/// Inserting keeps what is there, and keeps a descending list descending.
proof fn lemma_insert_ranked(sorted: Seq<ScoreView>, e: ScoreView)
    requires
        is_descending(sorted),
    ensures
        is_descending(insert_ranked(sorted, e)),
        insert_ranked(sorted, e).to_multiset() == sorted.to_multiset().insert(e),
        insert_ranked(sorted, e).len() == sorted.len() + 1,
        forall|i: int|
            0 <= i < insert_ranked(sorted, e).len() ==> (#[trigger] insert_ranked(sorted, e)[i])
                == e || sorted.contains(insert_ranked(sorted, e)[i]),
    decreases sorted.len(),
{
    broadcast use vstd::seq_lib::group_to_multiset_ensures;

    let out = insert_ranked(sorted, e);
    if sorted.len() == 0 || sorted.last().score >= e.score {
        assert forall|i: int, j: int| 0 <= i <= j < out.len() implies (#[trigger] out[i]).score
            >= (#[trigger] out[j]).score by {
            if j == sorted.len() && i < j {
                assert(sorted[i].score >= sorted[sorted.len() - 1].score);
            }
        }
        assert forall|i: int| 0 <= i < out.len() implies (#[trigger] out[i]) == e
            || sorted.contains(out[i]) by {
            if i < sorted.len() {
                assert(out[i] == sorted[i]);
            }
        }
    } else {
        let head = sorted.drop_last();
        let last = sorted.last();
        lemma_insert_ranked(head, e);
        let inner = insert_ranked(head, e);
        assert(head.push(last) =~= sorted);
        assert(out.to_multiset() =~= sorted.to_multiset().insert(e));
        assert forall|i: int| 0 <= i < out.len() implies (#[trigger] out[i]) == e
            || sorted.contains(out[i]) by {
            if i < inner.len() {
                assert(out[i] == inner[i]);
                if inner[i] != e {
                    let k = choose|k: int| 0 <= k < head.len() && head[k] == inner[i];
                    assert(sorted[k] == out[i]);
                }
            } else {
                assert(sorted[sorted.len() - 1] == out[i]);
            }
        }
        assert forall|i: int, j: int| 0 <= i <= j < out.len() implies (#[trigger] out[i]).score
            >= (#[trigger] out[j]).score by {
            if j == inner.len() {
                if i < j && inner[i] != e {
                    let k = choose|k: int| 0 <= k < head.len() && head[k] == inner[i];
                    assert(sorted[k].score >= sorted[sorted.len() - 1].score);
                }
            } else {
                assert(inner[i].score >= inner[j].score);
            }
        }
    }
}

/// The scores do not rise from front to back.
pub open spec fn is_descending(scores: Seq<ScoreView>) -> bool {
    forall|i: int, j: int|
        0 <= i <= j < scores.len() ==> (#[trigger] scores[i]).score >= (#[trigger] scores[j]).score
}

/// Ranking only reorders: no score is lost or added, and the highest comes first.
pub proof fn law_ranking_reorders_from_high_to_low(scores: Seq<ScoreView>)
    ensures
        is_descending(ranked(scores)),
        ranked(scores).to_multiset() == scores.to_multiset(),
        ranked(scores).len() == scores.len(),
    decreases scores.len(),
{
    broadcast use vstd::seq_lib::group_to_multiset_ensures;

    if scores.len() > 0 {
        law_ranking_reorders_from_high_to_low(scores.drop_last());
        lemma_insert_ranked(ranked(scores.drop_last()), scores.last());
        assert(scores.drop_last().push(scores.last()) =~= scores);
    } else {
        assert(scores =~= Seq::empty());
    }
}

/// The sidebar has one line for each score of the objective that it shows.
pub proof fn law_one_line_per_score(board: ScoreboardView)
    ensures
        match board.sidebar {
            Some(name) => board.lines().len() == board.scores.filter(
                |e: ScoreView| e.objective == name,
            ).len(),
            None => board.lines().len() == 0,
        },
{
    match board.sidebar {
        Some(name) => {
            law_ranking_reorders_from_high_to_low(
                board.scores.filter(|e: ScoreView| e.objective == name),
            );
        },
        None => {},
    }
}

/// The display text and the score of `owner` in `objective`.
pub open spec fn score_of(
    board: ScoreboardView,
    objective: Seq<char>,
    owner: Seq<char>,
) -> Option<(Seq<char>, u32)> {
    match score_at(board.scores, objective, owner) {
        Some(i) => Some((board.scores[i].display, board.scores[i].score)),
        None => None,
    }
}

/// Where the keys are distinct, the element with a key is the one that is found.
proof fn lemma_found_is_the_one(
    scores: Seq<ScoreView>,
    objective: Seq<char>,
    owner: Seq<char>,
    at: int,
)
    requires
        keys_differ(scores, |e: ScoreView| (e.objective, e.owner)),
        0 <= at < scores.len(),
        is_score_of(scores[at], objective, owner),
    ensures
        score_at(scores, objective, owner) == Some(at),
{
    let wanted = |e: ScoreView| is_score_of(e, objective, owner);
    lemma_first_where(scores, wanted, 0);
    assert(wanted(scores[at]));
    let key = |e: ScoreView| (e.objective, e.owner);
    match first_where(scores, wanted, 0) {
        Some(i) => {
            assert(wanted(scores[i]));
            if i < at {
                assert(key(scores[i]) != key(scores[at]));
            }
        },
        None => {},
    }
}

/// A score that was announced is read back, displayed by its text, or by its owner where it came
/// without a text or with an empty one, and no other score changes.
pub proof fn law_announced_score_is_read_back(
    board: ScoreboardView,
    objective: Seq<char>,
    owner: Seq<char>,
    display: Option<Seq<char>>,
    score: u32,
    other_objective: Seq<char>,
    other_owner: Seq<char>,
)
    requires
        board.well_formed(),
    ensures
        score_of(board.with_score(objective, owner, display, score), objective, owner)
            == Some(
            (
                match display {
                    Some(text) if text.len() > 0 => text,
                    _ => owner,
                },
                score,
            ),
        ),
        (other_objective, other_owner) != (objective, owner) ==> score_of(
            board.with_score(objective, owner, display, score),
            other_objective,
            other_owner,
        ) == score_of(board, other_objective, other_owner),
{
    let after = board.with_score(objective, owner, display, score);
    lemma_with_score_keeps_form(board, objective, owner, display, score);
    let mine = |e: ScoreView| is_score_of(e, objective, owner);
    let wanted = |e: ScoreView| is_score_of(e, other_objective, other_owner);
    lemma_first_where(board.scores, mine, 0);
    let at = match score_at(board.scores, objective, owner) {
        Some(i) => i,
        None => board.scores.len() as int,
    };
    lemma_found_is_the_one(after.scores, objective, owner, at);
    if (other_objective, other_owner) != (objective, owner) {
        lemma_first_where(board.scores, wanted, 0);
        lemma_first_where(after.scores, wanted, 0);
        match score_at(board.scores, other_objective, other_owner) {
            Some(k) => {
                assert(wanted(board.scores[k]));
                if k == at {
                    assert(mine(board.scores[k]));
                }
                assert(after.scores[k] == board.scores[k]);
                lemma_found_is_the_one(after.scores, other_objective, other_owner, k);
            },
            None => {
                match score_at(after.scores, other_objective, other_owner) {
                    Some(k) => {
                        assert(wanted(after.scores[k]));
                        if k != at {
                            assert(after.scores[k] == board.scores[k]);
                            assert(!wanted(board.scores[k]));
                        }
                    },
                    None => {},
                }
            },
        }
    }
}

/// Taking out elements that are not wanted leaves the first that is wanted.
proof fn lemma_first_where_kept<A>(
    s: Seq<A>,
    keep: spec_fn(A) -> bool,
    wanted: spec_fn(A) -> bool,
)
    requires
        forall|e: A| wanted(e) ==> #[trigger] keep(e),
    ensures
        match (first_where(s, wanted, 0), first_where(s.filter(keep), wanted, 0)) {
            (Some(i), Some(j)) => 0 <= i < s.len() && 0 <= j < s.filter(keep).len() && s[i]
                == s.filter(keep)[j],
            (None, None) => true,
            _ => false,
        },
    decreases s.len(),
{
    reveal(Seq::filter);
    let all = s.filter(keep);
    lemma_first_where(s, wanted, 0);
    lemma_first_where(all, wanted, 0);
    if s.len() > 0 {
        let front = s.drop_last();
        let kept = front.filter(keep);
        lemma_first_where_kept(front, keep, wanted);
        lemma_first_where(front, wanted, 0);
        lemma_first_where(kept, wanted, 0);
        assert(all == if keep(s.last()) {
            kept.push(s.last())
        } else {
            kept
        });
        assert(forall|i: int| 0 <= i < front.len() ==> #[trigger] s[i] == front[i]);
        assert(forall|j: int| 0 <= j < kept.len() ==> #[trigger] all[j] == kept[j]);
        match (first_where(front, wanted, 0), first_where(kept, wanted, 0)) {
            (Some(i), Some(j)) => {
                assert(wanted(s[i]) && wanted(all[j]));
                assert(first_where(s, wanted, 0) == Some(i));
                assert(first_where(all, wanted, 0) == Some(j));
            },
            _ => {
                if wanted(s.last()) {
                    assert(keep(s.last()));
                    assert(wanted(s[s.len() - 1]) && wanted(all[kept.len() as int]));
                }
            },
        }
    }
}

/// After a reset the owner has no score in the objective, or, without an objective, in none, and
/// every score that the reset does not speak of is as before.
pub proof fn law_reset_score_is_gone(
    board: ScoreboardView,
    objective: Option<Seq<char>>,
    owner: Seq<char>,
    asked_objective: Seq<char>,
    asked_owner: Seq<char>,
)
    ensures
        score_of(board.without_score(objective, owner), asked_objective, asked_owner) == (if asked_owner
            == owner && (objective is None || objective == Some(asked_objective)) {
            None
        } else {
            score_of(board, asked_objective, asked_owner)
        }),
{
    let keep = |e: ScoreView| !is_reset(e, objective, owner);
    let after = board.without_score(objective, owner);
    let wanted = |e: ScoreView| is_score_of(e, asked_objective, asked_owner);
    if asked_owner == owner && (objective is None || objective == Some(asked_objective)) {
        lemma_first_where(after.scores, wanted, 0);
        match score_at(after.scores, asked_objective, asked_owner) {
            Some(i) => {
                assert(wanted(after.scores[i]));
                board.scores.lemma_filter_pred(keep, i);
            },
            None => {},
        }
    } else {
        lemma_first_where_kept(board.scores, keep, wanted);
    }
}

/// A text that is one word gives that word, whatever follows after white space.
proof fn lemma_first_word(word: Seq<char>, tail: Seq<char>)
    requires
        word.len() > 0,
        forall|i: int| 0 <= i < word.len() ==> !is_space(#[trigger] word[i]),
        tail.len() > 0 ==> is_space(tail[0]),
    ensures
        first_word(word + tail) == word,
{
    let s = word + tail;
    assert(s[0] == word[0]);
    assert(trimmed_start(s) == s);
    lemma_word_end(s);
    let end = word_end(s);
    if end < word.len() {
        assert(s[end] == word[end]);
    } else if end > word.len() {
        assert(s[word.len() as int] == tail[0]);
    }
    assert(s.take(end) =~= word);
    assert(words(s)[0] == s.take(end));
}

/// The purse is read back: a line that says, apart from color codes and white space around it,
/// "Purse: <amount>" or "Piggy: <amount>", possibly with more words behind, gives the amount.
pub proof fn law_purse_line_is_read_back(line: Seq<char>, amount: u64, tail: Seq<char>, piggy: bool)
    requires
        tail.len() > 0 ==> is_space(tail[0]),
        trimmed(without_colors(line)) == (if piggy {
            "Piggy: "@
        } else {
            "Purse: "@
        }) + coins_text(amount as int) + tail,
    ensures
        purse_in_line(line) == Some(amount),
{
    let clean = trimmed(without_colors(line));
    let label = if piggy {
        "Piggy: "@
    } else {
        "Purse: "@
    };
    lemma_amount_after(clean, label, amount, tail);
    if piggy {
        assert(!begins_with(clean, "Purse: "@)) by {
            reveal_strlit("Purse: ");
            reveal_strlit("Piggy: ");
            assert(clean[1] == 'i');
            if begins_with(clean, "Purse: "@) {
                assert(clean.subrange(0, 7)[1] == 'u');
            }
        }
    }
}

/// What follows a label on a line is read back.
proof fn lemma_amount_after(clean: Seq<char>, label: Seq<char>, amount: u64, tail: Seq<char>)
    requires
        tail.len() > 0 ==> is_space(tail[0]),
        clean == label + coins_text(amount as int) + tail,
    ensures
        begins_with(clean, label),
        amount_after(clean, label) == Some(amount),
{
    let digits = decimal(amount as nat);
    let coins = grouped(digits);
    lemma_decimal_value(amount as nat);
    lemma_grouped_chars(digits);
    law_separators_come_out_again(digits);
    assert(clean.subrange(0, label.len() as int) =~= label);
    assert(clean.skip(label.len() as int) =~= coins + tail);
    lemma_first_word(coins, tail);
}

/// Where a team is put, it stands in the place of the one with its name, and every other team stays.
proof fn lemma_put_team(board: ScoreboardView, team: TeamView, t: TeamView)
    requires
        board.well_formed(),
    ensures
        board.put_team(team).teams.contains(t) <==> t == team || t.name != team.name
            && board.teams.contains(t),
        board.put_team(team).scores == board.scores,
        board.put_team(team).sidebar == board.sidebar,
{
    let after = board.put_team(team).teams;
    let wanted = |u: TeamView| u.name == team.name;
    let key = |u: TeamView| u.name;
    lemma_first_where(board.teams, wanted, 0);
    match team_at(board.teams, team.name) {
        Some(at) => {
            assert(wanted(board.teams[at]));
            assert(after[at] == team);
            if after.contains(t) {
                let i = choose|i: int| 0 <= i < after.len() && after[i] == t;
                if i != at {
                    assert(board.teams[i] == t);
                    if i < at {
                        assert(key(board.teams[i]) != key(board.teams[at]));
                    } else {
                        assert(key(board.teams[at]) != key(board.teams[i]));
                    }
                }
            }
            if t.name != team.name && board.teams.contains(t) {
                let i = choose|i: int| 0 <= i < board.teams.len() && board.teams[i] == t;
                assert(after[i] == t);
            }
        },
        None => {
            assert(after[after.len() - 1] == team);
            if after.contains(t) {
                let i = choose|i: int| 0 <= i < after.len() && after[i] == t;
                if i < board.teams.len() {
                    assert(board.teams[i] == t);
                    assert(!wanted(board.teams[i]));
                }
            }
            if t.name != team.name && board.teams.contains(t) {
                let i = choose|i: int| 0 <= i < board.teams.len() && board.teams[i] == t;
                assert(after[i] == t);
            }
        },
    }
}

/// The team of a name is the one that is found.
proof fn lemma_known_team(board: ScoreboardView, team: TeamView)
    requires
        board.well_formed(),
        board.teams.contains(team),
    ensures
        team_at(board.teams, team.name) matches Some(at) && board.teams[at] == team,
{
    let wanted = |u: TeamView| u.name == team.name;
    let key = |u: TeamView| u.name;
    lemma_first_where(board.teams, wanted, 0);
    let i = choose|i: int| 0 <= i < board.teams.len() && board.teams[i] == team;
    assert(wanted(board.teams[i]));
    match team_at(board.teams, team.name) {
        Some(at) => {
            assert(wanted(board.teams[at]));
            if at < i {
                assert(key(board.teams[at]) != key(board.teams[i]));
            }
        },
        None => {},
    }
}

/// A team is kept as it is announced: a new announcement replaces it, a change gives it another
/// prefix and suffix and keeps its members, players join behind the members and leave from among
/// them, and a removal takes it away. No other team changes, and no score does.
pub proof fn law_teams_are_kept_as_announced(
    board: ScoreboardView,
    team: TeamView,
    prefix: Seq<char>,
    suffix: Seq<char>,
    players: Seq<Seq<char>>,
    t: TeamView,
)
    requires
        board.well_formed(),
        board.teams.contains(team),
    ensures
        ({
            let other = t.name != team.name && board.teams.contains(t);
            let added = board.with_team(team.name, TeamMethodView::Add(prefix, suffix, players));
            let changed = board.with_team(team.name, TeamMethodView::Change(prefix, suffix));
            let joined = board.with_team(team.name, TeamMethodView::Join(players));
            let left = board.with_team(team.name, TeamMethodView::Leave(players));
            let removed = board.with_team(team.name, TeamMethodView::Remove);
            &&& added.teams.contains(t) <==> other || t == (TeamView {
                name: team.name,
                prefix,
                suffix,
                members: players,
            })
            &&& changed.teams.contains(t) <==> other || t == (TeamView { prefix, suffix, ..team })
            &&& joined.teams.contains(t) <==> other || t == (TeamView {
                members: team.members + players,
                ..team
            })
            &&& left.teams.contains(t) <==> other || t == (TeamView {
                members: team.members.filter(|m: Seq<char>| !players.contains(m)),
                ..team
            })
            &&& removed.teams.contains(t) <==> other
            &&& added.scores == board.scores && changed.scores == board.scores && joined.scores
                == board.scores && left.scores == board.scores && removed.scores == board.scores
        }),
{
    lemma_known_team(board, team);
    lemma_put_team(board, TeamView { name: team.name, prefix, suffix, members: players }, t);
    lemma_put_team(board, TeamView { prefix, suffix, ..team }, t);
    lemma_put_team(board, TeamView { members: team.members + players, ..team }, t);
    lemma_put_team(
        board,
        TeamView {
            members: team.members.filter(|m: Seq<char>| !players.contains(m)),
            ..team
        },
        t,
    );
    let keep = |u: TeamView| u.name != team.name;
    let removed = board.teams.filter(keep);
    if removed.contains(t) {
        let i = choose|i: int| 0 <= i < removed.len() && removed[i] == t;
        board.teams.lemma_filter_pred(keep, i);
        board.teams.lemma_filter_contains_rev(keep, t);
    }
    if t.name != team.name && board.teams.contains(t) {
        let i = choose|i: int| 0 <= i < board.teams.len() && board.teams[i] == t;
        board.teams.lemma_filter_contains(keep, i);
    }
}

/// What is announced of a team that is not known yet makes it known, but for players who leave it.
pub proof fn law_unknown_team_becomes_known(
    board: ScoreboardView,
    name: Seq<char>,
    prefix: Seq<char>,
    suffix: Seq<char>,
    players: Seq<Seq<char>>,
    t: TeamView,
)
    requires
        board.well_formed(),
        forall|u: TeamView| #[trigger] board.teams.contains(u) ==> u.name != name,
    ensures
        ({
            let added = board.with_team(name, TeamMethodView::Add(prefix, suffix, players));
            let changed = board.with_team(name, TeamMethodView::Change(prefix, suffix));
            let joined = board.with_team(name, TeamMethodView::Join(players));
            &&& added.teams.contains(t) <==> board.teams.contains(t) || t == (TeamView {
                name,
                prefix,
                suffix,
                members: players,
            })
            &&& changed.teams.contains(t) <==> board.teams.contains(t) || t == (TeamView {
                name,
                prefix,
                suffix,
                members: Seq::empty(),
            })
            &&& joined.teams.contains(t) <==> board.teams.contains(t) || t == (TeamView {
                name,
                prefix: Seq::empty(),
                suffix: Seq::empty(),
                members: players,
            })
            &&& board.with_team(name, TeamMethodView::Leave(players)) == board
        }),
{
    let wanted = |u: TeamView| u.name == name;
    lemma_first_where(board.teams, wanted, 0);
    if let Some(at) = team_at(board.teams, name) {
        assert(wanted(board.teams[at]));
        assert(board.teams.contains(board.teams[at]));
    }
    assert(Seq::<Seq<char>>::empty() + players =~= players);
    lemma_put_team(board, TeamView { name, prefix, suffix, members: players }, t);
    lemma_put_team(board, TeamView { name, prefix, suffix, members: Seq::empty() }, t);
    lemma_put_team(
        board,
        TeamView { name, prefix: Seq::empty(), suffix: Seq::empty(), members: players },
        t,
    );
}

/// A line shows the prefix and the suffix of its owner's team, the last one that has the owner as a
/// member, and its display text where no team has.
pub proof fn law_line_shows_the_team(board: ScoreboardView, e: ScoreView, n: int)
    ensures
        0 <= n < board.teams.len() && board.teams[n].members.contains(e.owner) && (forall|m: int|
            n < m < board.teams.len() ==> !(#[trigger] board.teams[m]).members.contains(e.owner))
            ==> board.line_text(e) == board.teams[n].prefix + board.teams[n].suffix,
        (forall|m: int|
            0 <= m < board.teams.len() ==> !(#[trigger] board.teams[m]).members.contains(e.owner))
            ==> board.line_text(e) == e.display,
{
    lemma_team_text(board.teams, e.owner, board.teams.len(), n);
}

/// The text of the last team that has the member.
proof fn lemma_team_text(teams: Seq<TeamView>, member: Seq<char>, upto: nat, n: int)
    requires
        upto <= teams.len(),
    ensures
        0 <= n < upto && teams[n].members.contains(member) && (forall|m: int|
            n < m < upto ==> !(#[trigger] teams[m]).members.contains(member)) ==> team_text_upto(
            teams,
            member,
            upto,
        ) == Some(teams[n].prefix + teams[n].suffix),
        (forall|m: int| 0 <= m < upto ==> !(#[trigger] teams[m]).members.contains(member))
            ==> team_text_upto(teams, member, upto) is None,
    decreases upto,
{
    if upto > 0 {
        lemma_team_text(teams, member, (upto - 1) as nat, n);
    }
}

/// The sidebar shows the scores of its objective and no others, each by its line, from the highest
/// to the lowest.
pub proof fn law_sidebar_shows_its_objective(board: ScoreboardView, name: Seq<char>, i: int)
    requires
        board.sidebar == Some(name),
        0 <= i < board.lines().len(),
    ensures
        ({
            let shown = board.sidebar_scores();
            &&& shown.len() == board.lines().len()
            &&& board.lines()[i] == board.line_text(shown[i])
            &&& shown[i].objective == name
            &&& board.scores.contains(shown[i])
            &&& i > 0 ==> shown[i - 1].score >= shown[i].score
        }),
{
    let own = |e: ScoreView| e.objective == name;
    let picked = board.scores.filter(own);
    law_ranking_reorders_from_high_to_low(picked);
    let shown = board.sidebar_scores();
    assert(picked.contains(shown[i])) by {
        broadcast use vstd::seq_lib::group_to_multiset_ensures;

        assert(shown.contains(shown[i]));
        assert(shown.to_multiset().count(shown[i]) > 0);
        assert(picked.to_multiset().count(shown[i]) > 0);
    }
    let k = choose|k: int| 0 <= k < picked.len() && picked[k] == shown[i];
    board.scores.lemma_filter_pred(own, k);
    board.scores.lemma_filter_contains_rev(own, shown[i]);
}

/// Where a score is announced last, it stands behind all scores that are not lower, and before all
/// that are.
pub proof fn law_later_score_stands_behind_equal_ones(scores: Seq<ScoreView>, e: ScoreView)
    ensures
        exists|at: int|
            0 <= at <= ranked(scores).len() && ranked(scores.push(e)) == #[trigger] ranked(
                scores,
            ).insert(at, e) && (forall|k: int|
                0 <= k < at ==> (#[trigger] ranked(scores)[k]).score >= e.score) && (forall|k: int|
                at <= k < ranked(scores).len() ==> (#[trigger] ranked(scores)[k]).score < e.score),
{
    let sorted = ranked(scores);
    law_ranking_reorders_from_high_to_low(scores);
    let at = lemma_rank_of(sorted, e);
    lemma_insert_ranked_at(sorted, e, at);
    assert(scores.push(e).drop_last() =~= scores);
    assert(ranked(scores.push(e)) == sorted.insert(at, e));
}

/// How many of the scores are not lower.
proof fn lemma_rank_of(sorted: Seq<ScoreView>, e: ScoreView) -> (at: int)
    requires
        is_descending(sorted),
    ensures
        0 <= at <= sorted.len(),
        forall|k: int| 0 <= k < at ==> (#[trigger] sorted[k]).score >= e.score,
        forall|k: int| at <= k < sorted.len() ==> (#[trigger] sorted[k]).score < e.score,
    decreases sorted.len(),
{
    if sorted.len() == 0 {
        0
    } else if sorted.last().score >= e.score {
        assert forall|k: int| 0 <= k < sorted.len() implies (#[trigger] sorted[k]).score
            >= e.score by {
            assert(sorted[k].score >= sorted[sorted.len() - 1].score);
        }
        sorted.len() as int
    } else {
        let front = sorted.drop_last();
        assert(forall|k: int| 0 <= k < front.len() ==> #[trigger] front[k] == sorted[k]);
        let at = lemma_rank_of(front, e);
        assert forall|k: int| 0 <= k < at implies (#[trigger] sorted[k]).score >= e.score by {
            assert(front[k] == sorted[k]);
        }
        assert forall|k: int| at <= k < sorted.len() implies (#[trigger] sorted[k]).score
            < e.score by {
            if k < front.len() {
                assert(front[k] == sorted[k]);
            }
        }
        at
    }
}

/// The purse is what the first line shows that shows one, and is not known where no line does.
pub proof fn law_purse_is_the_first_that_is_shown(lines: Seq<Seq<char>>, from: int)
    requires
        0 <= from,
    ensures
        forall|i: int|
            from <= i < lines.len() && purse_in_line(#[trigger] lines[i]) is Some && (forall|j: int|
                from <= j < i ==> purse_in_line(#[trigger] lines[j]) is None) ==> first_purse(
                lines,
                from,
            ) == purse_in_line(lines[i]),
        (forall|j: int| from <= j < lines.len() ==> purse_in_line(#[trigger] lines[j]) is None)
            ==> first_purse(lines, from) is None,
    decreases lines.len() - from,
{
    if from < lines.len() && purse_in_line(lines[from]) is None {
        law_purse_is_the_first_that_is_shown(lines, from + 1);
    }
}

/// A line that begins with neither "Purse: " nor "Piggy: ", apart from color codes and the white
/// space around it, shows no purse.
pub proof fn law_other_lines_show_no_purse(line: Seq<char>)
    requires
        !begins_with(trimmed(without_colors(line)), "Purse: "@),
        !begins_with(trimmed(without_colors(line)), "Piggy: "@),
    ensures
        purse_in_line(line) is None,
{
}

} // verus!
