use vstd::prelude::*;

use crate::error::Error;
use crate::schema::{Actor, ActorId};
use crate::text::{is_blank, lines, lines_of, parse_u32, parsed_u32, same_text, trim, trimmed};

verus! {

/// Where the actor index lives.
#[derive(Debug)]
pub struct ActorIndexPath {
    path: String,
}

impl View for ActorIndexPath {
    type V = Seq<char>;

    closed spec fn view(&self) -> Seq<char> {
        self.path@
    }
}

/// `root` with `name` joined on, as `PathBuf::join` joins a relative name:
/// with a `/` between them unless `root` is empty or already ends in one.
pub open spec fn joined_path(root: Seq<char>, name: Seq<char>) -> Seq<char> {
    if root.len() == 0 || root.last() == '/' {
        root + name
    } else {
        root + seq!['/'] + name
    }
}

/// Where the actor index lives: the explicit index path when one is set,
/// otherwise `actors.nota` in the store directory, `.persona-message` when
/// none is set.
pub open spec fn actor_index_location(actors: Option<Seq<char>>, store: Option<Seq<char>>) -> Seq<char> {
    match actors {
        Some(path) => path,
        None => joined_path(
            match store {
                Some(root) => root,
                None => ".persona-message"@,
            },
            "actors.nota"@,
        ),
    }
}

/// An explicit index path is used as given, whatever the store directory;
/// without one, the index is the file `actors.nota` inside the store
/// directory, and inside `.persona-message` when no store is set.
pub proof fn lemma_actor_index_location(path: Seq<char>, store: Option<Seq<char>>, root: Seq<char>)
    ensures
        actor_index_location(Some(path), store) == path,
        actor_index_location(None, Some(root)).len() >= root.len() + 11,
        actor_index_location(None, Some(root)).subrange(0, root.len() as int) == root,
        actor_index_location(None, Some(root)).subrange(
            actor_index_location(None, Some(root)).len() - 11,
            actor_index_location(None, Some(root)).len() as int,
        ) == "actors.nota"@,
        actor_index_location(None, None) == ".persona-message/actors.nota"@,
{
    reveal_strlit("actors.nota");
    reveal_strlit(".persona-message");
    reveal_strlit(".persona-message/actors.nota");
    let joined = actor_index_location(None, Some(root));
    if root.len() == 0 || root.last() == '/' {
        assert(joined == root + "actors.nota"@);
    } else {
        assert(joined == root + seq!['/'] + "actors.nota"@);
    }
    assert(joined.subrange(0, root.len() as int) =~= root);
    assert(joined.subrange(joined.len() - 11, joined.len() as int) =~= "actors.nota"@);
    assert(actor_index_location(None, None) =~= ".persona-message/actors.nota"@);
}

/// `root` with `name` joined on.
pub fn join_path(root: String, name: &str) -> (joined: String)
    ensures
        joined@ == joined_path(root@, name@),
{
    let length = root.as_str().unicode_len();
    let mut joined = root;
    if length > 0 && joined.as_str().get_char(length - 1) != '/' {
        proof {
            reveal_strlit("/");
        }
        joined.append("/");
    }
    joined.append(name);
    joined
}

impl ActorIndexPath {
    /// The actor index path that the settings name: an explicit index
    /// path, else the store directory.
    pub fn from_environment_values(actors: Option<String>, store: Option<String>) -> (index_path: Self)
        ensures
            actors matches Some(path) ==> index_path@ == path@,
            index_path@ == actor_index_location(
                match actors {
                    Some(path) => Some(path@),
                    None => None,
                },
                match store {
                    Some(root) => Some(root@),
                    None => None,
                },
            ),
    {
        match actors {
            Some(path) => ActorIndexPath::from_path(path),
            None => {
                let root = match store {
                    Some(root) => root,
                    None => String::from_str(".persona-message"),
                };
                ActorIndexPath::from_path(join_path(root, "actors.nota"))
            },
        }
    }

    pub fn from_path(path: String) -> (index_path: Self)
        ensures
            index_path@ == path@,
    {
        ActorIndexPath { path }
    }

    pub fn path(&self) -> (path: &String)
        ensures
            path@ == self@,
    {
        &self.path
    }

    /// The actor of the index at this path that speaks for the current
    /// process, given the index's actors and the process's ancestry; no
    /// actor speaking for it is an error that names the index.
    pub fn resolve_current_process(&self, index: &ActorIndex, ancestry: &ProcessAncestry) -> (name: Result<
        ActorId,
        Error,
    >)
        ensures
            match resolution(index.entries(), ancestry.pids_spec()) {
                Some(found) => name matches Ok(id) && id@ == found,
                None => name matches Err(Error::NoMatchingAgent { path }) && path@ == self@,
            },
    {
        match index.resolve(ancestry) {
            Some(id) => Ok(id),
            None => Err(Error::NoMatchingAgent { path: self.path.clone() }),
        }
    }
}

/// One non-blank line of an index file, with its line number counted from 1.
#[derive(Debug)]
pub struct NumberedLine {
    pub number: usize,
    pub text: String,
}

/// The non-blank lines among `lines`, numbered from `number` on.
pub open spec fn records_from(lines: Seq<Seq<char>>, number: int) -> Seq<(int, Seq<char>)>
    decreases lines.len(),
{
    if lines.len() == 0 {
        seq![]
    } else if trimmed(lines[0]).len() == 0 {
        records_from(lines.drop_first(), number + 1)
    } else {
        seq![(number, lines[0])] + records_from(lines.drop_first(), number + 1)
    }
}

/// The first actor in `actors` whose process is `pid`.
pub open spec fn actor_with_pid(actors: Seq<Actor>, pid: u32) -> Option<int>
    decreases actors.len(),
{
    if actors.len() == 0 {
        None
    } else if actors[0].pid == pid {
        Some(0)
    } else {
        match actor_with_pid(actors.drop_first(), pid) {
            Some(i) => Some(i + 1),
            None => None,
        }
    }
}

/// The actor that speaks for an ancestry: the one registered for the
/// nearest process of the ancestry that has one, first in the index when
/// several are.
pub open spec fn resolution(actors: Seq<Actor>, pids: Seq<u32>) -> Option<Seq<char>>
    decreases pids.len(),
{
    if pids.len() == 0 {
        None
    } else {
        match actor_with_pid(actors, pids[0]) {
            Some(i) => Some(actors[i].name@),
            None => resolution(actors, pids.drop_first()),
        }
    }
}

/// The actor that an ancestry resolves to is registered for a process of
/// the ancestry, and no process nearer in the ancestry has a registered
/// actor; an ancestry resolves to no actor exactly when none of its
/// processes has one.
pub proof fn lemma_resolution_is_nearest_registered_ancestor(actors: Seq<Actor>, pids: Seq<u32>)
    ensures
        resolution(actors, pids) matches Some(name) ==> exists|i: int, j: int|
            0 <= i < pids.len() && 0 <= j < actors.len() && #[trigger] actors[j].pid == #[trigger] pids[i]
                && actors[j].name@ == name && forall|k: int, l: int|
                0 <= k < i && 0 <= l < actors.len() ==> #[trigger] actors[l].pid != #[trigger] pids[k],
        resolution(actors, pids) is None <==> forall|k: int, l: int|
            0 <= k < pids.len() && 0 <= l < actors.len() ==> #[trigger] actors[l].pid != #[trigger] pids[k],
    decreases pids.len(),
{
    if pids.len() > 0 {
        lemma_resolution_is_nearest_registered_ancestor(actors, pids.drop_first());
        lemma_actor_with_pid_spec(actors, pids[0]);
        let rest = pids.drop_first();
        match actor_with_pid(actors, pids[0]) {
            Some(j) => {
                assert(actors[j].pid == pids[0]);
            },
            None => {
                if let Some(name) = resolution(actors, rest) {
                    let (i, j) = choose|i: int, j: int|
                        0 <= i < rest.len() && 0 <= j < actors.len() && #[trigger] actors[j].pid
                            == #[trigger] rest[i] && actors[j].name@ == name && forall|k: int, l: int|
                            0 <= k < i && 0 <= l < actors.len() ==> #[trigger] actors[l].pid
                                != #[trigger] rest[k];
                    assert(pids[i + 1] == rest[i]);
                    assert forall|k: int, l: int|
                        0 <= k < i + 1 && 0 <= l < actors.len() implies #[trigger] actors[l].pid
                        != #[trigger] pids[k] by {
                        if k > 0 {
                            assert(pids[k] == rest[k - 1]);
                        }
                    }
                    assert(actors[j].pid == pids[i + 1]);
                }
                assert((forall|k: int, l: int|
                    0 <= k < rest.len() && 0 <= l < actors.len() ==> #[trigger] actors[l].pid
                        != #[trigger] rest[k]) ==> forall|k: int, l: int|
                    0 <= k < pids.len() && 0 <= l < actors.len() ==> #[trigger] actors[l].pid
                        != #[trigger] pids[k]) by {
                    if forall|k: int, l: int|
                        0 <= k < rest.len() && 0 <= l < actors.len() ==> #[trigger] actors[l].pid
                            != #[trigger] rest[k] {
                        assert forall|k: int, l: int|
                            0 <= k < pids.len() && 0 <= l < actors.len() implies #[trigger] actors[l].pid
                            != #[trigger] pids[k] by {
                            if k > 0 {
                                assert(pids[k] == rest[k - 1]);
                            }
                        }
                    }
                }
                assert forall|k: int, l: int|
                    0 <= k < rest.len() && 0 <= l < actors.len() && (forall|k2: int, l2: int|
                        0 <= k2 < pids.len() && 0 <= l2 < actors.len() ==> #[trigger] actors[l2].pid
                            != #[trigger] pids[k2]) implies #[trigger] actors[l].pid != #[trigger] rest[k] by {
                    assert(rest[k] == pids[k + 1]);
                }
            },
        }
    }
}

/// What `actor_with_pid` finds has that process, and it finds nothing only
/// when no actor has it.
pub proof fn lemma_actor_with_pid_spec(actors: Seq<Actor>, pid: u32)
    ensures
        actor_with_pid(actors, pid) matches Some(j) ==> 0 <= j < actors.len() && actors[j].pid == pid,
        actor_with_pid(actors, pid) is None <==> forall|l: int| 0 <= l < actors.len() ==> #[trigger] actors[l].pid != pid,
    decreases actors.len(),
{
    if actors.len() > 0 {
        lemma_actor_with_pid_spec(actors.drop_first(), pid);
        if actors[0].pid != pid {
            assert forall|l: int| 0 <= l < actors.len() - 1 implies #[trigger] actors.drop_first()[l].pid
                == actors[l + 1].pid by {}
            if actor_with_pid(actors.drop_first(), pid) is None {
                assert forall|l: int| 0 <= l < actors.len() implies #[trigger] actors[l].pid != pid by {
                    if l > 0 {
                        assert(actors[l] == actors.drop_first()[l - 1]);
                    }
                }
            } else {
                let j = actor_with_pid(actors.drop_first(), pid)->0;
                assert(actors[j + 1] == actors.drop_first()[j]);
            }
        }
    }
}

/// The actors known to the message component.
#[derive(Debug)]
pub struct ActorIndex {
    actors: Vec<Actor>,
}

impl ActorIndex {
    pub closed spec fn entries(&self) -> Seq<Actor> {
        self.actors@
    }

    pub fn from_actors(actors: Vec<Actor>) -> (index: Self)
        ensures
            index.entries() == actors@,
    {
        ActorIndex { actors }
    }

    pub fn actors(&self) -> (actors: &[Actor])
        ensures
            actors@ == self.entries(),
    {
        self.actors.as_slice()
    }

    /// The lines of an index file that hold records: all but the blank
    /// ones, each with its line number.
    pub fn record_lines(text: &str) -> (records: Vec<NumberedLine>)
        ensures
            records@.map_values(|line: NumberedLine| (line.number as int, line.text@))
                == records_from(lines_of(text@), 1),
    {
        let all = lines(text);
        let ghost all_views = all@.map_values(|line: String| line@);
        let mut records: Vec<NumberedLine> = Vec::new();
        let mut index: usize = 0;
        let count = all.len();
        assert(all_views.skip(0) == all_views);
        assert(records@.map_values(|line: NumberedLine| (line.number as int, line.text@)) + records_from(all_views, 1) == records_from(all_views, 1));
        while index < count
            invariant
                count == all@.len(),
                all_views == all@.map_values(|line: String| line@),
                index <= count,
                records@.map_values(|line: NumberedLine| (line.number as int, line.text@))
                    + records_from(all_views.skip(index as int), index + 1) == records_from(
                    all_views,
                    1,
                ),
            decreases count - index,
        {
            let ghost before = records@.map_values(|line: NumberedLine| (line.number as int, line.text@));
            proof {
                assert(all_views.skip(index as int).drop_first() == all_views.skip(index + 1));
                assert(all_views.skip(index as int)[0] == all@[index as int]@);
            }
            if !is_blank(all[index].as_str()) {
                let record = NumberedLine { number: index + 1, text: all[index].clone() };
                records.push(record);
                proof {
                    assert(records@.map_values(|line: NumberedLine| (line.number as int, line.text@))
                        == before.push((index + 1, all@[index as int]@)));
                    assert(before.push((index + 1, all@[index as int]@)) + records_from(
                        all_views.skip(index + 1),
                        index + 2,
                    ) == before + (seq![(index + 1, all@[index as int]@)] + records_from(
                        all_views.skip(index + 1),
                        index + 2,
                    )));
                }
            }
            index = index + 1;
        }
        proof {
            assert(all_views.skip(count as int) == Seq::<Seq<char>>::empty());
            assert(all_views == lines_of(text@));
        }
        records
    }

    /// The actor that speaks for a process ancestry: the one registered for
    /// the nearest process of the ancestry that has one.
    pub fn resolve(&self, ancestry: &ProcessAncestry) -> (name: Option<ActorId>)
        ensures
            match name {
                Some(id) => resolution(self.entries(), ancestry.pids_spec()) == Some(id@),
                None => resolution(self.entries(), ancestry.pids_spec()) is None,
            },
    {
        let pids = ancestry.pids();
        let mut index: usize = 0;
        assert(pids@.skip(0) == pids@);
        while index < pids.len()
            invariant
                index <= pids@.len(),
                pids@ == ancestry.pids_spec(),
                resolution(self.actors@, pids@) == resolution(self.actors@, pids@.skip(index as int)),
            decreases pids@.len() - index,
        {
            proof {
                assert(pids@.skip(index as int)[0] == pids@[index as int]);
                assert(pids@.skip(index as int).drop_first() == pids@.skip(index + 1));
            }
            if let Some(found) = self.actor_with_pid(pids[index]) {
                return Some(self.actors[found].name.duplicate());
            }
            index = index + 1;
        }
        proof {
            assert(pids@.skip(index as int).len() == 0);
        }
        None
    }

    fn actor_with_pid(&self, pid: u32) -> (found: Option<usize>)
        ensures
            match found {
                Some(i) => actor_with_pid(self.entries(), pid) == Some(i as int) && i < self.entries().len(),
                None => actor_with_pid(self.entries(), pid) is None,
            },
    {
        let mut index: usize = 0;
        while index < self.actors.len()
            invariant
                index <= self.actors@.len(),
                forall|j: int| 0 <= j < index ==> #[trigger] self.actors@[j].pid != pid,
            decreases self.actors@.len() - index,
        {
            if self.actors[index].pid == pid {
                proof {
                    lemma_actor_with_pid_found(self.actors@, pid, index as int);
                }
                return Some(index);
            }
            index = index + 1;
        }
        proof {
            lemma_actor_with_pid_absent(self.actors@, pid);
        }
        None
    }
}

proof fn lemma_actor_with_pid_found(actors: Seq<Actor>, pid: u32, i: int)
    requires
        0 <= i < actors.len(),
        actors[i].pid == pid,
        forall|j: int| 0 <= j < i ==> #[trigger] actors[j].pid != pid,
    ensures
        actor_with_pid(actors, pid) == Some(i),
    decreases i,
{
    if i > 0 {
        assert forall|j: int| 0 <= j < i - 1 implies #[trigger] actors.drop_first()[j].pid != pid by {
            assert(actors.drop_first()[j] == actors[j + 1]);
        }
        lemma_actor_with_pid_found(actors.drop_first(), pid, i - 1);
    }
}

proof fn lemma_actor_with_pid_absent(actors: Seq<Actor>, pid: u32)
    requires
        forall|j: int| 0 <= j < actors.len() ==> #[trigger] actors[j].pid != pid,
    ensures
        actor_with_pid(actors, pid) is None,
    decreases actors.len(),
{
    if actors.len() > 0 {
        assert forall|j: int| 0 <= j < actors.len() - 1 implies #[trigger] actors.drop_first()[j].pid
            != pid by {
            assert(actors.drop_first()[j] == actors[j + 1]);
        }
        lemma_actor_with_pid_absent(actors.drop_first(), pid);
    }
}

/// The chain of processes from one process up through its parents.
#[derive(Debug)]
pub struct ProcessAncestry {
    pids: Vec<u32>,
}

impl ProcessAncestry {
    pub closed spec fn pids_spec(&self) -> Seq<u32> {
        self.pids@
    }

    /// The start of the walk up from `pid`: the process itself.
    pub fn from_process(pid: u32) -> (ancestry: Self)
        ensures
            ancestry.pids_spec() == seq![pid],
    {
        let mut pids: Vec<u32> = Vec::new();
        pids.push(pid);
        ProcessAncestry { pids }
    }

    /// Takes the parent of the last recorded process: the walk ends at
    /// process 0 and at a process that is its own parent; otherwise the
    /// parent is recorded and the walk goes on.
    pub fn record_parent(&mut self, parent: u32) -> (goes_on: bool)
        requires
            old(self).pids_spec().len() > 0,
        ensures
            goes_on == (parent != 0 && parent != old(self).pids_spec().last()),
            goes_on ==> final(self).pids_spec() == old(self).pids_spec().push(parent),
            !goes_on ==> final(self).pids_spec() == old(self).pids_spec(),
    {
        let last = self.pids[self.pids.len() - 1];
        if parent == 0 || parent == last {
            return false;
        }
        self.pids.push(parent);
        true
    }

    pub fn from_pids(pids: Vec<u32>) -> (ancestry: Self)
        ensures
            ancestry.pids_spec() == pids@,
    {
        ProcessAncestry { pids }
    }

    pub fn pids(&self) -> (pids: &[u32])
        ensures
            pids@ == self.pids_spec(),
    {
        self.pids.as_slice()
    }
}

/// Whether `line` starts with `prefix`.
pub open spec fn starts_with(line: Seq<char>, prefix: Seq<char>) -> bool {
    prefix.len() <= line.len() && line.subrange(0, prefix.len() as int) == prefix
}

/// What follows `PPid:` on the first line of a process status that starts
/// with it.
pub open spec fn parent_field(lines: Seq<Seq<char>>) -> Option<Seq<char>>
    decreases lines.len(),
{
    if lines.len() == 0 {
        None
    } else if starts_with(lines[0], "PPid:"@) {
        Some(lines[0].skip(5))
    } else {
        parent_field(lines.drop_first())
    }
}

/// The parent process that a `/proc/PID/status` text names for process
/// `pid`.
pub fn parent_from_status(status: &str, pid: u32) -> (parent: Result<u32, Error>)
    ensures
        match parent_field(lines_of(status@)) {
            None => parent == Err::<u32, Error>(Error::MissingParentProcess { pid }),
            Some(field) => match parsed_u32(trimmed(field)) {
                Some(number) => parent == Ok::<u32, Error>(number),
                None => parent matches Err(Error::InvalidProcessId { got }) && got@ == trimmed(field),
            },
        },
{
    proof {
        reveal_strlit("PPid:");
    }
    let all = lines(status);
    let ghost views = all@.map_values(|line: String| line@);
    let mut index: usize = 0;
    assert(views.skip(0) == views);
    while index < all.len()
        invariant
            index <= all@.len(),
            views == all@.map_values(|line: String| line@),
            views == lines_of(status@),
            parent_field(views) == parent_field(views.skip(index as int)),
        decreases all@.len() - index,
    {
        let line = all[index].as_str();
        proof {
            assert(views.skip(index as int)[0] == line@);
            assert(views.skip(index as int).drop_first() == views.skip(index + 1));
        }
        let length = line.unicode_len();
        if length >= 5 && same_text(line.substring_char(0, 5), "PPid:") {
            let rest = line.substring_char(5, length);
            let text = trim(rest);
            proof {
                assert(starts_with(line@, "PPid:"@));
                assert(parent_field(views.skip(index as int)) == Some(line@.skip(5)));
            }
            return match parse_u32(text.as_str()) {
                Some(number) => Ok(number),
                None => Err(Error::InvalidProcessId { got: text }),
            };
        }
        proof {
            reveal_strlit("PPid:");
            if length >= 5 {
                assert(line@.subrange(0, 5) != "PPid:"@);
            }
            assert(!starts_with(line@, "PPid:"@));
        }
        index = index + 1;
    }
    proof {
        assert(views.skip(index as int).len() == 0);
    }
    Err(Error::MissingParentProcess { pid })
}

} // verus!
