use vstd::prelude::*;
use vstd::string::*;

use crate::decimal::{
    lemma_decimal_reads_back, lemma_signed_decimal_injective, magnitude, push_decimal,
    spec_decimal, spec_is_digit, spec_signed_decimal,
};

verus! {

/// What every group name begins with.
pub open spec fn spec_name_prefix() -> Seq<char> {
    "runner/"@
}

/// The name of the resource group for a pair of limits: the prefix, the
/// memory limit, a hyphen, the process count limit.
pub open spec fn spec_group_name(memory_limit: i64, process_count_limit: u32) -> Seq<char> {
    spec_name_prefix() + spec_signed_decimal(memory_limit as int) + seq!['-'] + spec_decimal(
        process_count_limit as nat,
    )
}

/// The name of the resource group for a pair of limits.
pub fn group_name(memory_limit: i64, process_count_limit: u32) -> (name: String)
    ensures
        name@ == spec_group_name(memory_limit, process_count_limit),
{
    let mut name = String::from_str("runner/");
    if memory_limit < 0 {
        proof {
            reveal_strlit("-");
        }
        name.append("-");
        assert(name@ =~= spec_name_prefix() + seq!['-']);
    }
    push_decimal(&mut name, magnitude(memory_limit));
    assert(name@ =~= spec_name_prefix() + spec_signed_decimal(memory_limit as int));
    proof {
        reveal_strlit("-");
    }
    name.append("-");
    push_decimal(&mut name, process_count_limit as u64);
    assert(name@ =~= spec_group_name(memory_limit, process_count_limit));
    name
}

/// What a resource group is created with.
#[derive(Debug)]
pub struct ResourceGroup {
    /// The name under which the kernel knows the group.
    pub name: String,
    /// The memory above which the kernel reclaims from the group.
    pub memory_soft_limit: i64,
    /// The memory that the group cannot exceed.
    pub memory_hard_limit: i64,
    /// The memory and swap together that the group cannot exceed.
    pub memory_swap_limit: i64,
    /// The number of tasks that can live in the group at once.
    pub max_processes: i64,
}

impl ResourceGroup {
    /// Whether `self` is the group for the pair of limits: named after the
    /// pair, with all three memory limits at the memory limit, so that no
    /// swap is granted beyond it, and the task count at the process count
    /// limit.
    pub open spec fn spec_sized_for(&self, memory_limit: i64, process_count_limit: u32) -> bool {
        &&& self.name@ == spec_group_name(memory_limit, process_count_limit)
        &&& self.memory_soft_limit == memory_limit
        &&& self.memory_hard_limit == memory_limit
        &&& self.memory_swap_limit == memory_limit
        &&& self.max_processes == process_count_limit
    }

    /// The group for a pair of limits.
    pub fn sized_for(memory_limit: i64, process_count_limit: u32) -> (group: ResourceGroup)
        ensures
            group.spec_sized_for(memory_limit, process_count_limit),
    {
        ResourceGroup {
            name: group_name(memory_limit, process_count_limit),
            memory_soft_limit: memory_limit,
            memory_hard_limit: memory_limit,
            memory_swap_limit: memory_limit,
            max_processes: process_count_limit as i64,
        }
    }
}

/// One group that has been created, under the pair of limits it was created
/// for.
pub struct GroupEntry<G> {
    pub memory_limit: i64,
    pub process_count_limit: u32,
    pub handle: G,
}

/// The groups that a list of entries stands for. Where two entries have the
/// same pair of limits, the earlier one counts.
pub open spec fn spec_groups<G>(entries: Seq<GroupEntry<G>>) -> Map<(i64, u32), G>
    decreases entries.len(),
{
    if entries.len() == 0 {
        Map::empty()
    } else {
        let last = entries.last();
        spec_store(
            spec_groups(entries.drop_last()),
            (last.memory_limit, last.process_count_limit),
            last.handle,
        )
    }
}

/// The groups after an acquisition for `key` for which `handle` was created:
/// as before where the pair already has a group, and with the new group
/// added where it has none.
pub open spec fn spec_store<G>(groups: Map<(i64, u32), G>, key: (i64, u32), handle: G) -> Map<
    (i64, u32),
    G,
> {
    if groups.contains_key(key) {
        groups
    } else {
        groups.insert(key, handle)
    }
}

/// The groups created so far, each found again by its pair of limits. A
/// group stays for as long as the cache lives.
pub struct GroupCache<G> {
    entries: Vec<GroupEntry<G>>,
}

impl<G> View for GroupCache<G> {
    type V = Map<(i64, u32), G>;

    closed spec fn view(&self) -> Map<(i64, u32), G> {
        spec_groups(self.entries@)
    }
}

/// What the groups of a list hold for a pair of limits: the handle of the
/// first entry with that pair, and nothing where no entry has it.
proof fn lemma_groups_first_match<G>(entries: Seq<GroupEntry<G>>, key: (i64, u32), at: int)
    requires
        0 <= at <= entries.len(),
        forall|i: int|
            0 <= i < at ==> (#[trigger] entries[i].memory_limit, entries[i].process_count_limit)
                != key,
    ensures
        at < entries.len() && (entries[at].memory_limit, entries[at].process_count_limit) == key
            ==> spec_groups(entries).contains_key(key) && spec_groups(entries)[key]
            == entries[at].handle,
        at == entries.len() ==> !spec_groups(entries).contains_key(key),
    decreases entries.len(),
{
    if entries.len() > 0 {
        let front = entries.drop_last();
        assert forall|i: int| 0 <= i < front.len() implies front[i] == entries[i] by {}
        if at < entries.len() {
            lemma_groups_first_match(front, key, at);
        } else {
            lemma_groups_first_match(front, key, at - 1);
        }
    }
}

impl<G> GroupCache<G> {
    /// A cache without groups.
    pub fn new() -> (cache: Self)
        ensures
            cache@ == Map::<(i64, u32), G>::empty(),
    {
        GroupCache { entries: Vec::new() }
    }

    /// The group that was created for the pair of limits, if one was.
    pub fn lookup(&self, memory_limit: i64, process_count_limit: u32) -> (found: Option<&G>)
        ensures
            found is Some <==> self@.contains_key((memory_limit, process_count_limit)),
            found matches Some(handle) ==> *handle == self@[(memory_limit, process_count_limit)],
    {
        let mut at: usize = 0;
        while at < self.entries.len()
            invariant
                at <= self.entries@.len(),
                forall|i: int|
                    0 <= i < at ==> (
                        #[trigger] self.entries@[i].memory_limit,
                        self.entries@[i].process_count_limit,
                    ) != (memory_limit, process_count_limit),
            decreases self.entries@.len() - at,
        {
            let entry = &self.entries[at];
            if entry.memory_limit == memory_limit && entry.process_count_limit
                == process_count_limit {
                proof {
                    lemma_groups_first_match(
                        self.entries@,
                        (memory_limit, process_count_limit),
                        at as int,
                    );
                }
                return Some(&entry.handle);
            }
            at = at + 1;
        }
        proof {
            lemma_groups_first_match(self.entries@, (memory_limit, process_count_limit), at as int);
        }
        None
    }

    /// Whether a group was created for the pair of limits.
    pub fn contains(&self, memory_limit: i64, process_count_limit: u32) -> (held: bool)
        ensures
            held == self@.contains_key((memory_limit, process_count_limit)),
    {
        self.lookup(memory_limit, process_count_limit).is_some()
    }

    /// Puts the group `handle`, created for the pair of limits, into the
    /// cache, unless the pair has a group already: then that group stays and
    /// `handle` is dropped. Says whether `handle` went in.
    pub fn store(&mut self, memory_limit: i64, process_count_limit: u32, handle: G) -> (stored:
        bool)
        ensures
            stored == !old(self)@.contains_key((memory_limit, process_count_limit)),
            final(self)@ == spec_store(old(self)@, (memory_limit, process_count_limit), handle),
    {
        if self.contains(memory_limit, process_count_limit) {
            false
        } else {
            let ghost before = self.entries@;
            self.entries.push(GroupEntry { memory_limit, process_count_limit, handle });
            assert(self.entries@.drop_last() =~= before);
            true
        }
    }
}

/// Acquisition is idempotent: once a pair of limits has a group, acquiring
/// for the same pair again changes nothing and finds the same group, whatever
/// was created for the second acquisition.
pub proof fn lemma_acquire_idempotent<G>(
    groups: Map<(i64, u32), G>,
    key: (i64, u32),
    first: G,
    second: G,
)
    ensures
        spec_store(spec_store(groups, key, first), key, second) == spec_store(groups, key, first),
        spec_store(groups, key, first).contains_key(key),
        groups.contains_key(key) ==> spec_store(groups, key, first)[key] == groups[key],
        !groups.contains_key(key) ==> spec_store(groups, key, first)[key] == first,
{
}

/// An acquisition for one pair of limits leaves the group of every other
/// pair as it was, and gives no group to a pair that had none.
pub proof fn lemma_acquire_keeps_others<G>(
    groups: Map<(i64, u32), G>,
    key: (i64, u32),
    handle: G,
    other: (i64, u32),
)
    requires
        other != key,
    ensures
        spec_store(groups, key, handle).contains_key(other) == groups.contains_key(other),
        groups.contains_key(other) ==> spec_store(groups, key, handle)[other] == groups[other],
{
}

/// Where two texts, each a head, a hyphen and a tail of digits, are the same
/// text, the heads are the same and the tails are the same.
proof fn lemma_split_at_last_hyphen(
    head_a: Seq<char>,
    tail_a: Seq<char>,
    head_b: Seq<char>,
    tail_b: Seq<char>,
)
    requires
        head_a + seq!['-'] + tail_a == head_b + seq!['-'] + tail_b,
        forall|i: int| 0 <= i < tail_a.len() ==> spec_is_digit(#[trigger] tail_a[i]),
        forall|i: int| 0 <= i < tail_b.len() ==> spec_is_digit(#[trigger] tail_b[i]),
    ensures
        head_a == head_b,
        tail_a == tail_b,
{
    let text_a = head_a + seq!['-'] + tail_a;
    let text_b = head_b + seq!['-'] + tail_b;
    assert(text_a.len() == head_a.len() + 1 + tail_a.len());
    assert(text_b.len() == head_b.len() + 1 + tail_b.len());
    if tail_a.len() < tail_b.len() {
        let at = head_a.len() as int;
        assert(text_a[at] == '-');
        assert(text_b[at] == tail_b[at - head_b.len() - 1]);
        assert(spec_is_digit(tail_b[at - head_b.len() - 1]));
    } else if tail_b.len() < tail_a.len() {
        let at = head_b.len() as int;
        assert(text_b[at] == '-');
        assert(text_a[at] == tail_a[at - head_a.len() - 1]);
        assert(spec_is_digit(tail_a[at - head_a.len() - 1]));
    } else {
        assert(head_a =~= text_a.subrange(0, head_a.len() as int));
        assert(head_b =~= text_b.subrange(0, head_b.len() as int));
        assert(tail_a =~= text_a.subrange(head_a.len() as int + 1, text_a.len() as int));
        assert(tail_b =~= text_b.subrange(head_b.len() as int + 1, text_b.len() as int));
    }
}

/// Two pairs of limits never share a group: pairs with the same group name
/// are the same pair.
pub proof fn lemma_group_name_injective(
    memory_a: i64,
    processes_a: u32,
    memory_b: i64,
    processes_b: u32,
)
    requires
        spec_group_name(memory_a, processes_a) == spec_group_name(memory_b, processes_b),
    ensures
        memory_a == memory_b,
        processes_a == processes_b,
{
    let head_a = spec_name_prefix() + spec_signed_decimal(memory_a as int);
    let head_b = spec_name_prefix() + spec_signed_decimal(memory_b as int);
    lemma_decimal_reads_back(processes_a as nat);
    lemma_decimal_reads_back(processes_b as nat);
    lemma_split_at_last_hyphen(
        head_a,
        spec_decimal(processes_a as nat),
        head_b,
        spec_decimal(processes_b as nat),
    );
    let lead = spec_name_prefix().len() as int;
    assert(spec_signed_decimal(memory_a as int) =~= head_a.subrange(lead, head_a.len() as int));
    assert(spec_signed_decimal(memory_b as int) =~= head_b.subrange(lead, head_b.len() as int));
    lemma_signed_decimal_injective(memory_a as int, memory_b as int);
}

} // verus!
