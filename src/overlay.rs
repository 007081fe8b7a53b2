use vstd::prelude::*;
use vstd::string::*;
use crate::snapshot::{
    chained, issued, lemma_ids_distinct, next_state, op_error, step, AllocationError, IndexAllocator, SnapshotOp, SnapshotState,
    StateError,
};

verus! {

/// The decimal digit for `d`.
pub open spec fn digit(d: nat) -> char {
    if d == 0 { '0' }
    else if d == 1 { '1' }
    else if d == 2 { '2' }
    else if d == 3 { '3' }
    else if d == 4 { '4' }
    else if d == 5 { '5' }
    else if d == 6 { '6' }
    else if d == 7 { '7' }
    else if d == 8 { '8' }
    else { '9' }
}

/// The decimal form of `n`, without leading zeros.
pub open spec fn decimal(n: nat) -> Seq<char>
    decreases n,
{
    if n < 10 {
        seq![digit(n)]
    } else {
        decimal(n / 10) + seq![digit(n % 10)]
    }
}

/// The paths joined by `:`, in their order.
pub open spec fn join_colon(s: Seq<Seq<char>>) -> Seq<char>
    decreases s.len(),
{
    if s.len() == 0 {
        Seq::empty()
    } else if s.len() == 1 {
        s[0]
    } else {
        join_colon(s.drop_last()) + ":"@ + s.last()
    }
}

/// The directory that holds a snapshot's scratch directories.
pub open spec fn snapshot_dir(data_dir: Seq<char>, id: nat) -> Seq<char> {
    data_dir + "/"@ + decimal(id)
}

/// A snapshot's upper directory.
pub open spec fn upper_dir_of(data_dir: Seq<char>, id: nat) -> Seq<char> {
    snapshot_dir(data_dir, id) + "/upperdir"@
}

/// A snapshot's work directory.
pub open spec fn work_dir_of(data_dir: Seq<char>, id: nat) -> Seq<char> {
    snapshot_dir(data_dir, id) + "/workdir"@
}

/// The options of a union mount over `lower` (topmost first).
pub open spec fn overlay_options(lower: Seq<Seq<char>>, upper: Seq<char>, work: Seq<char>) -> Seq<
    char,
> {
    "lowerdir="@ + join_colon(lower) + ",upperdir="@ + upper + ",workdir="@ + work
}

/// The characters of each string.
pub open spec fn views(v: Seq<String>) -> Seq<Seq<char>> {
    v.map_values(|s: String| s@)
}

/// How a snapshot's merged view is produced. The two differ in what
/// survives unmounting.
#[derive(Clone, Copy, Debug, PartialEq, Eq)]
pub enum MountStrategy {
    /// A kernel union mount: writes go to the upper directory, which
    /// survives unmounting apart from the lower roots.
    KernelOverlay,
    /// The lower roots copied into the mount path bottommost first: writes
    /// go to the mount path itself, with no upper directory apart.
    Flatten,
}

/// The mount kind recorded for a strategy.
pub open spec fn strategy_kind(strategy: MountStrategy) -> Seq<char> {
    match strategy {
        MountStrategy::KernelOverlay => "overlay"@,
        MountStrategy::Flatten => "flatten"@,
    }
}

/// The decimal form of `n`.
pub fn decimal_string(n: usize) -> (r: String)
    ensures
        r@ == decimal(n as nat),
    decreases n,
{
    proof {
        reveal_strlit("0");
        reveal_strlit("1");
        reveal_strlit("2");
        reveal_strlit("3");
        reveal_strlit("4");
        reveal_strlit("5");
        reveal_strlit("6");
        reveal_strlit("7");
        reveal_strlit("8");
        reveal_strlit("9");
    }
    let d: usize = n % 10;
    let last: &str = if d == 0 { "0" }
        else if d == 1 { "1" }
        else if d == 2 { "2" }
        else if d == 3 { "3" }
        else if d == 4 { "4" }
        else if d == 5 { "5" }
        else if d == 6 { "6" }
        else if d == 7 { "7" }
        else if d == 8 { "8" }
        else { "9" };
    if n < 10 {
        assert(last@ =~= seq![digit(n as nat)]);
        last.to_owned()
    } else {
        let mut s = decimal_string(n / 10);
        s.append(last);
        assert(last@ =~= seq![digit(n as nat % 10)]);
        s
    }
}

/// The paths of `lower` joined by `:`, topmost first.
pub fn join_lower_roots(lower: &Vec<String>) -> (r: String)
    ensures
        r@ == join_colon(views(lower@)),
{
    let mut out = String::new();
    let n = lower.len();
    let mut i: usize = 0;
    proof {
        assert(views(lower@).take(0) =~= Seq::<Seq<char>>::empty());
    }
    while i < n
        invariant
            n == lower@.len(),
            i <= n,
            out@ == join_colon(views(lower@).take(i as int)),
        decreases n - i,
    {
        let ghost prev = views(lower@).take(i as int);
        let ghost next = views(lower@).take(i as int + 1);
        proof {
            assert(next.drop_last() =~= prev);
            assert(next.last() == lower@[i as int]@);
        }
        if i > 0 {
            out.append(":");
            proof {
                reveal_strlit(":");
            }
        } else {
            proof {
                assert(prev.len() == 0);
            }
        }
        out.append(lower[i].as_str());
        proof {
            if i == 0 {
                assert(out@ =~= next[0]);
            }
        }
        i = i + 1;
    }
    proof {
        assert(views(lower@).take(n as int) =~= views(lower@));
    }
    out
}

/// Where a snapshot's merged view was mounted.
#[derive(Clone, Debug)]
pub struct MountPoint {
    /// The kind of mount, which names the strategy that produced it.
    pub kind: String,
    /// The merged view's location.
    pub mount_path: String,
    /// The snapshot's scratch directory, which holds its upper and work
    /// directories.
    pub work_dir: String,
}

/// A snapshot as a mathematical value.
pub struct SnapshotView {
    pub id: nat,
    pub lower_roots: Seq<Seq<char>>,
    pub scratch_dir: Seq<char>,
    pub upper_dir: Seq<char>,
    pub work_dir: Seq<char>,
    pub mount_path: Seq<char>,
    pub state: SnapshotState,
}

/// One mount instance over an ordered stack of lower content roots.
#[derive(Debug)]
pub struct Snapshot {
    id: usize,
    lower_roots: Vec<String>,
    scratch_dir: String,
    upper_dir: String,
    work_dir: String,
    mount_path: String,
    state: SnapshotState,
}

impl View for Snapshot {
    type V = SnapshotView;

    closed spec fn view(&self) -> SnapshotView {
        SnapshotView {
            id: self.id as nat,
            lower_roots: views(self.lower_roots@),
            scratch_dir: self.scratch_dir@,
            upper_dir: self.upper_dir@,
            work_dir: self.work_dir@,
            mount_path: self.mount_path@,
            state: self.state,
        }
    }
}


impl Snapshot {
    /// The snapshot's identifier.
    pub fn id(&self) -> (r: usize)
        ensures
            r as nat == self@.id,
    {
        self.id
    }

    /// The snapshot's lifecycle state.
    pub fn state(&self) -> (r: SnapshotState)
        ensures
            r == self@.state,
    {
        self.state
    }

    /// The snapshot's upper directory.
    pub fn upper_dir(&self) -> (r: String)
        ensures
            r@ == self@.upper_dir,
    {
        self.upper_dir.clone()
    }

    /// The snapshot's work directory.
    pub fn work_dir(&self) -> (r: String)
        ensures
            r@ == self@.work_dir,
    {
        self.work_dir.clone()
    }

    /// The directory that holds the snapshot's upper and work directories.
    pub fn scratch_dir(&self) -> (r: String)
        ensures
            r@ == self@.scratch_dir,
    {
        self.scratch_dir.clone()
    }

    /// The lower content roots, topmost first.
    pub fn lower_roots(&self) -> (r: Vec<String>)
        ensures
            views(r@) == self@.lower_roots,
    {
        let mut out: Vec<String> = Vec::new();
        let mut i: usize = 0;
        while i < self.lower_roots.len()
            invariant
                i <= self.lower_roots@.len(),
                views(out@) =~= views(self.lower_roots@).take(i as int),
            decreases self.lower_roots@.len() - i,
        {
            let ghost before = out@;
            out.push(self.lower_roots[i].clone());
            proof {
                let v = views(self.lower_roots@);
                assert(views(out@) =~= views(before).push(v[i as int]));
                assert(v.take(i as int + 1) =~= v.take(i as int).push(v[i as int]));
            }
            i = i + 1;
        }
        proof {
            assert(views(self.lower_roots@).take(i as int) =~= views(self.lower_roots@));
        }
        out
    }

    /// The options of the union mount: the lower roots colon-joined topmost
    /// first, then the upper and the work directory.
    pub fn mount_options(&self) -> (r: String)
        ensures
            r@ == overlay_options(self@.lower_roots, self@.upper_dir, self@.work_dir),
    {
        proof {
            reveal_strlit("lowerdir=");
            reveal_strlit(",upperdir=");
            reveal_strlit(",workdir=");
        }
        let mut out = "lowerdir=".to_owned();
        let joined = join_lower_roots(&self.lower_roots);
        out.append(joined.as_str());
        out.append(",upperdir=");
        out.append(self.upper_dir.as_str());
        out.append(",workdir=");
        out.append(self.work_dir.as_str());
        out
    }

    /// The order in which the flattening fallback copies the lower roots into
    /// the mount path: bottommost first, so that a root higher in the stack
    /// overwrites what a lower one put at the same path.
    pub fn copy_order(&self) -> (r: Vec<String>)
        ensures
            views(r@) == self@.lower_roots.reverse(),
    {
        let mut out: Vec<String> = Vec::new();
        let n = self.lower_roots.len();
        let mut i: usize = n;
        while i > 0
            invariant
                i <= n,
                n == self.lower_roots@.len(),
                views(out@) =~= views(self.lower_roots@).subrange(i as int, n as int).reverse(),
            decreases i,
        {
            let ghost before = out@;
            i = i - 1;
            out.push(self.lower_roots[i].clone());
            proof {
                let v = views(self.lower_roots@);
                assert(views(out@) =~= views(before).push(v[i as int]));
                assert(v.subrange(i as int, n as int).reverse() =~= v.subrange(
                    i as int + 1,
                    n as int,
                ).reverse().push(v[i as int]));
            }
        }
        proof {
            assert(views(self.lower_roots@).subrange(0, n as int) =~= views(self.lower_roots@));
        }
        out
    }

    /// Applies a lifecycle operation. Where the state does not allow it the
    /// snapshot is left as it was. No operation touches the directories: the
    /// upper directory survives unmounting.
    pub fn apply(&mut self, op: SnapshotOp) -> (r: Result<(), StateError>)
        ensures
            match step(old(self)@.state, op) {
                Some(t) => r is Ok && final(self)@ == (SnapshotView { state: t, ..old(self)@ }),
                None => r == Err::<(), StateError>(op_error(op)) && final(self)@ == old(self)@,
            },
    {
        match next_state(self.state, op) {
            Ok(t) => {
                self.state = t;
                Ok(())
            },
            Err(e) => Err(e),
        }
    }

    /// Records that the merged view was mounted at `mount_path` with
    /// `strategy`, and describes the mount: its kind names the strategy, and
    /// its work directory is the snapshot's scratch directory.
    pub fn record_mount(&mut self, mount_path: String, strategy: MountStrategy) -> (r: Result<
        MountPoint,
        StateError,
    >)
        ensures
            old(self)@.state == SnapshotState::Prepared ==> (r matches Ok(m) && m.kind@
                == strategy_kind(strategy) && m.mount_path@ == mount_path@ && m.work_dir@ == old(
                self,
            )@.scratch_dir && final(self)@ == (SnapshotView {
                state: SnapshotState::Mounted,
                mount_path: mount_path@,
                ..old(self)@
            })),
            old(self)@.state != SnapshotState::Prepared ==> r == Err::<MountPoint, StateError>(
                StateError::NotPrepared,
            ) && final(self)@ == old(self)@,
    {
        match self.state {
            SnapshotState::Prepared => {},
            _ => {
                return Err(StateError::NotPrepared);
            },
        }
        self.state = SnapshotState::Mounted;
        self.mount_path = mount_path.clone();
        proof {
            reveal_strlit("overlay");
            reveal_strlit("flatten");
        }
        let kind = match strategy {
            MountStrategy::KernelOverlay => "overlay".to_owned(),
            MountStrategy::Flatten => "flatten".to_owned(),
        };
        Ok(MountPoint { kind, mount_path, work_dir: self.scratch_dir.clone() })
    }
}

/// The overlay snapshotter: owns the storage root under which each snapshot
/// gets its own scratch directories, and the allocator of snapshot ids.
#[derive(Debug)]
pub struct OverLay {
    /// The storage root.
    pub data_dir: String,
    /// Hands out snapshot ids.
    pub index: IndexAllocator,
}

impl OverLay {
    /// A snapshotter over `data_dir` whose ids start at zero.
    pub fn new(data_dir: String) -> (r: OverLay)
        ensures
            r.data_dir@ == data_dir@,
            r.index.next_spec() == 0,
    {
        OverLay { data_dir, index: IndexAllocator::new() }
    }

    /// Prepares a snapshot over `lower_roots` (topmost first): allocates its
    /// id and names its upper and work directories under a directory of the
    /// storage root keyed by that id. Nothing is mounted yet.
    pub fn prepare(&mut self, lower_roots: Vec<String>) -> (r: Result<Snapshot, AllocationError>)
        ensures
            final(self).data_dir == old(self).data_dir,
            old(self).index.next_spec() < usize::MAX ==> (r matches Ok(s) && issued(
                old(self).index.next_spec(),
                s@.id,
                final(self).index.next_spec(),
            ) && s@.state == SnapshotState::Prepared && s@.lower_roots == views(lower_roots@)
                && s@.scratch_dir == snapshot_dir(old(self).data_dir@, s@.id) && s@.upper_dir == upper_dir_of(old(self).data_dir@, s@.id) && s@.work_dir
                == work_dir_of(old(self).data_dir@, s@.id) && s@.mount_path.len() == 0),
            old(self).index.next_spec() == usize::MAX ==> r is Err && final(self).index.next_spec()
                == old(self).index.next_spec(),
    {
        let id = match self.index.next_id() {
            Ok(id) => id,
            Err(e) => return Err(e),
        };
        proof {
            reveal_strlit("/");
            reveal_strlit("/upperdir");
            reveal_strlit("/workdir");
        }
        let mut dir = self.data_dir.clone();
        dir.append("/");
        let num = decimal_string(id);
        dir.append(num.as_str());
        let mut upper_dir = dir.clone();
        upper_dir.append("/upperdir");
        let mut work_dir = dir.clone();
        work_dir.append("/workdir");
        Ok(
            Snapshot {
                id,
                lower_roots,
                scratch_dir: dir,
                upper_dir,
                work_dir,
                mount_path: String::new(),
                state: SnapshotState::Prepared,
            },
        )
    }
}

/// With the lower roots given topmost first, the topmost root leads the
/// mount's lower-directory list, where a union mount lets the first entry win
/// on a name collision; and the flattening fallback copies it last, so that
/// its files overwrite those of the roots below it.
pub proof fn lemma_topmost_wins(lower: Seq<Seq<char>>)
    requires
        lower.len() > 0,
    ensures
        join_colon(lower).len() >= lower[0].len(),
        join_colon(lower).take(lower[0].len() as int) == lower[0],
        lower.reverse().last() == lower[0],
    decreases lower.len(),
{
    if lower.len() > 1 {
        lemma_topmost_wins(lower.drop_last());
        let j = join_colon(lower.drop_last());
        assert(join_colon(lower) == j + ":"@ + lower.last());
        assert(lower.drop_last()[0] == lower[0]);
        assert(j.take(lower[0].len() as int) == lower[0]);
        assert((j + ":"@ + lower.last()).take(lower[0].len() as int) =~= j.take(lower[0].len() as int));
    } else {
        assert(join_colon(lower) == lower[0]);
        assert(lower[0].take(lower[0].len() as int) =~= lower[0]);
    }
}


proof fn lemma_digit_injective(a: nat, b: nat)
    requires
        a < 10,
        b < 10,
        digit(a) == digit(b),
    ensures
        a == b,
{
}

proof fn lemma_decimal_nonempty(n: nat)
    ensures
        decimal(n).len() >= 1,
        n >= 10 ==> decimal(n).len() >= 2,
    decreases n,
{
    if n >= 10 {
        lemma_decimal_nonempty(n / 10);
    }
}

/// Distinct numbers have distinct decimal forms.
pub proof fn lemma_decimal_injective(a: nat, b: nat)
    requires
        decimal(a) == decimal(b),
    ensures
        a == b,
    decreases a,
{
    lemma_decimal_nonempty(a);
    lemma_decimal_nonempty(b);
    if a < 10 && b < 10 {
        assert(decimal(a)[0] == digit(a));
        assert(decimal(b)[0] == digit(b));
        lemma_digit_injective(a, b);
    } else if a >= 10 && b >= 10 {
        let da = decimal(a);
        assert(da.drop_last() =~= decimal(a / 10));
        assert(decimal(b).drop_last() =~= decimal(b / 10));
        assert(da.last() == digit(a % 10));
        assert(decimal(b).last() == digit(b % 10));
        lemma_digit_injective(a % 10, b % 10);
        lemma_decimal_injective(a / 10, b / 10);
    } else {
        assert(decimal(a).len() != decimal(b).len());
    }
}

/// Snapshots with distinct ids under one storage root get distinct upper
/// directories and distinct work directories, so that concurrent snapshots
/// never share scratch space.
pub proof fn lemma_scratch_dirs_distinct(data_dir: Seq<char>, a: nat, b: nat)
    requires
        a != b,
    ensures
        snapshot_dir(data_dir, a) != snapshot_dir(data_dir, b),
        upper_dir_of(data_dir, a) != upper_dir_of(data_dir, b),
        work_dir_of(data_dir, a) != work_dir_of(data_dir, b),
{
    reveal_strlit("/");
    reveal_strlit("/upperdir");
    reveal_strlit("/workdir");
    let p = data_dir + "/"@;
    let sa = snapshot_dir(data_dir, a);
    let sb = snapshot_dir(data_dir, b);
    if sa == sb {
        assert(sa.subrange(p.len() as int, sa.len() as int) =~= decimal(a));
        assert(sb.subrange(p.len() as int, sb.len() as int) =~= decimal(b));
        lemma_decimal_injective(a, b);
    }
    let ua = upper_dir_of(data_dir, a);
    let ub = upper_dir_of(data_dir, b);
    if ua == ub {
        assert(ua.subrange(p.len() as int, ua.len() - 9) =~= decimal(a));
        assert(ub.subrange(p.len() as int, ub.len() - 9) =~= decimal(b));
        lemma_decimal_injective(a, b);
    }
    let wa = work_dir_of(data_dir, a);
    let wb = work_dir_of(data_dir, b);
    if wa == wb {
        assert(wa.subrange(p.len() as int, wa.len() - 8) =~= decimal(a));
        assert(wb.subrange(p.len() as int, wb.len() - 8) =~= decimal(b));
        lemma_decimal_injective(a, b);
    }
}


/// Snapshots prepared one after another by one snapshotter (each `prepare`
/// issues its id as `issued` says) get distinct ids, strictly increasing,
/// and pairwise distinct scratch, upper and work directories.
pub proof fn lemma_prepared_snapshots_disjoint(data_dir: Seq<char>, calls: Seq<(nat, nat, nat)>)
    requires
        chained(calls),
    ensures
        forall|i: int, j: int|
            0 <= i < j < calls.len() ==> #[trigger] calls[i].1 < #[trigger] calls[j].1,
        forall|i: int, j: int|
            0 <= i < j < calls.len() ==> snapshot_dir(data_dir, #[trigger] calls[i].1)
                != snapshot_dir(data_dir, #[trigger] calls[j].1) && upper_dir_of(
                data_dir,
                calls[i].1,
            ) != upper_dir_of(data_dir, calls[j].1) && work_dir_of(data_dir, calls[i].1)
                != work_dir_of(data_dir, calls[j].1),
{
    lemma_ids_distinct(calls);
    assert forall|i: int, j: int| 0 <= i < j < calls.len() implies snapshot_dir(
        data_dir,
        #[trigger] calls[i].1,
    ) != snapshot_dir(data_dir, #[trigger] calls[j].1) && upper_dir_of(data_dir, calls[i].1)
        != upper_dir_of(data_dir, calls[j].1) && work_dir_of(data_dir, calls[i].1) != work_dir_of(
        data_dir,
        calls[j].1,
    ) by {
        lemma_scratch_dirs_distinct(data_dir, calls[i].1, calls[j].1);
    }
}

} // verus!
