use vstd::prelude::*;

use crate::text::{join_range, join_with, strings_view, utf8_len};

verus! {

/// The most bytes the records of a summarised database may take.
pub const DATABASE_SIZE_LIMIT: usize = 9 * 1024 - 256;

/// How many records are summarised in one request.
pub const CHUNK_SIZE: usize = 15;

/// The bytes of a person's records together.
pub open spec fn records_bytes(recs: Seq<String>) -> nat
    decreases recs.len(),
{
    if recs.len() == 0 {
        0
    } else {
        records_bytes(recs.drop_last()) + utf8_len(recs.last()@)
    }
}

/// The bytes of all records of all persons.
pub open spec fn total_bytes(entries: Seq<FriendEntry>) -> nat
    decreases entries.len(),
{
    if entries.len() == 0 {
        0
    } else {
        total_bytes(entries.drop_last()) + records_bytes(entries.last().records@)
    }
}

/// A person's records, each followed by a line break.
pub open spec fn records_text(recs: Seq<String>) -> Seq<char>
    decreases recs.len(),
{
    if recs.len() == 0 {
        Seq::empty()
    } else {
        records_text(recs.drop_last()) + recs.last()@ + "\n"@
    }
}

/// The section of one person: a heading with the name, the name again, then the records.
pub open spec fn entry_text(e: FriendEntry) -> Seq<char> {
    "# "@ + e.name@ + "\n"@ + e.name@ + records_text(e.records@)
}

/// The sections of all persons, in order.
pub open spec fn database_text(entries: Seq<FriendEntry>) -> Seq<char>
    decreases entries.len(),
{
    if entries.len() == 0 {
        Seq::empty()
    } else {
        database_text(entries.drop_last()) + entry_text(entries.last())
    }
}

/// Chunk `k` of `recs`: records `CHUNK_SIZE * k` up to the next chunk or the end.
pub open spec fn chunk(recs: Seq<Seq<char>>, k: int) -> Seq<Seq<char>> {
    let lo = CHUNK_SIZE * k;
    let hi = if lo + CHUNK_SIZE < recs.len() {
        lo + CHUNK_SIZE
    } else {
        recs.len() as int
    };
    recs.subrange(lo, hi)
}

/// The number of chunks of `n` records.
pub open spec fn chunk_count(n: nat) -> nat {
    ((n + CHUNK_SIZE - 1) / CHUNK_SIZE as int) as nat
}

/// The summarising requests for a person's records: each chunk joined by spaces.
pub open spec fn chunk_inputs(recs: Seq<Seq<char>>) -> Seq<Seq<char>> {
    Seq::new(chunk_count(recs.len()), |k: int| join_with(chunk(recs, k), " "@))
}

/// The records of one person.
#[derive(Clone, Debug)]
pub struct FriendEntry {
    pub name: String,
    pub records: Vec<String>,
}

/// Records about a few persons, each person once, in the order they came.
#[derive(Clone, Debug)]
pub struct FriendsDatabase {
    friends: Vec<FriendEntry>,
}

/// Why a summarised database was refused.
#[derive(Clone, Copy, Debug, PartialEq, Eq, Structural)]
pub enum OptimizeError {
    /// Its records still take this many bytes, more than the limit.
    TooBig(usize),
}

proof fn lemma_total_prefix(entries: Seq<FriendEntry>, i: int)
    requires
        0 <= i <= entries.len(),
    ensures
        total_bytes(entries.take(i)) <= total_bytes(entries),
    decreases entries.len(),
{
    if i == entries.len() {
        assert(entries.take(i) =~= entries);
    } else {
        assert(entries.drop_last().take(i) =~= entries.take(i));
        lemma_total_prefix(entries.drop_last(), i);
    }
}

proof fn lemma_records_prefix(recs: Seq<String>, i: int)
    requires
        0 <= i <= recs.len(),
    ensures
        records_bytes(recs.take(i)) <= records_bytes(recs),
    decreases recs.len(),
{
    if i == recs.len() {
        assert(recs.take(i) =~= recs);
    } else {
        assert(recs.drop_last().take(i) =~= recs.take(i));
        lemma_records_prefix(recs.drop_last(), i);
    }
}

fn records_size(recs: &Vec<String>, bound: Ghost<nat>) -> (r: usize)
    requires
        records_bytes(recs@) <= bound@,
        bound@ <= usize::MAX,
    ensures
        r == records_bytes(recs@),
{
    let mut sum: usize = 0;
    let mut i: usize = 0;
    assert(recs@.take(0) =~= Seq::<String>::empty());
    while i < recs.len()
        invariant
            0 <= i <= recs@.len(),
            sum == records_bytes(recs@.take(i as int)),
            records_bytes(recs@) <= bound@,
            bound@ <= usize::MAX,
        decreases recs@.len() - i,
    {
        assert(recs@.take(i + 1).drop_last() =~= recs@.take(i as int));
        proof {
            lemma_records_prefix(recs@, i + 1);
        }
        sum = sum + recs[i].as_str().len();
        i = i + 1;
    }
    assert(recs@.take(i as int) =~= recs@);
    sum
}

fn append_records(out: &mut String, recs: &Vec<String>)
    ensures
        final(out)@ == old(out)@ + records_text(recs@),
{
    let mut i: usize = 0;
    assert(recs@.take(0) =~= Seq::<String>::empty());
    assert(old(out)@ + Seq::<char>::empty() =~= old(out)@);
    while i < recs.len()
        invariant
            0 <= i <= recs@.len(),
            out@ == old(out)@ + records_text(recs@.take(i as int)),
        decreases recs@.len() - i,
    {
        assert(recs@.take(i + 1).drop_last() =~= recs@.take(i as int));
        out.append(recs[i].as_str());
        out.append("\n");
        i = i + 1;
        assert(out@ =~= old(out)@ + records_text(recs@.take(i as int)));
    }
    assert(recs@.take(i as int) =~= recs@);
}

/// The inputs of the summarising requests for one person's records: the records in
/// chunks of `CHUNK_SIZE`, each chunk joined by spaces.
pub fn chunk_records(recs: &Vec<String>) -> (r: Vec<String>)
    ensures
        strings_view(r@) == chunk_inputs(strings_view(recs@)),
{
    let ghost words = strings_view(recs@);
    let n = recs.len();
    let count = if n % CHUNK_SIZE == 0 {
        n / CHUNK_SIZE
    } else {
        n / CHUNK_SIZE + 1
    };
    assert(count == chunk_count(n as nat)) by (nonlinear_arith)
        requires
            n % 15 == 0 ==> count == n / 15,
            n % 15 != 0 ==> count == n / 15 + 1,
            chunk_count(n as nat) == (n + 14) / 15,
    ;
    let mut out: Vec<String> = Vec::new();
    let mut k: usize = 0;
    while k < count
        invariant
            n == recs@.len(),
            words == strings_view(recs@),
            count == chunk_count(n as nat),
            k <= count,
            out@.len() == k,
            forall|j: int| 0 <= j < k ==> (#[trigger] out@[j])@ == join_with(chunk(words, j), " "@),
        decreases count - k,
    {
        assert(15 * k < n && 15 * k + 15 <= usize::MAX) by (nonlinear_arith)
            requires
                k < count,
                count == (n + 14) / 15,
                n <= usize::MAX,
        ;
        let lo = CHUNK_SIZE * k;
        let hi = if n - lo > CHUNK_SIZE {
            lo + CHUNK_SIZE
        } else {
            n
        };
        let c = join_range(recs, lo, hi, " ");
        out.push(c);
        k = k + 1;
    }
    assert(strings_view(out@) =~= chunk_inputs(words));
    out
}

/// The entries after setting `e`: in place of the entry with the same name where there
/// is one, else at the end.
pub open spec fn with_entry(entries: Seq<FriendEntry>, e: FriendEntry) -> Seq<FriendEntry> {
    if exists|i: int| 0 <= i < entries.len() && entries[i].name@ == e.name@ {
        let i = choose|i: int| 0 <= i < entries.len() && entries[i].name@ == e.name@;
        entries.update(i, e)
    } else {
        entries.push(e)
    }
}

impl View for FriendsDatabase {
    type V = Seq<FriendEntry>;

    closed spec fn view(&self) -> Seq<FriendEntry> {
        self.friends@
    }
}

impl FriendsDatabase {
    /// Each person appears once.
    pub closed spec fn wf(&self) -> bool {
        forall|i: int, j: int|
            0 <= i < j < self.friends@.len() ==> self.friends@[i].name@ != self.friends@[j].name@
    }

    pub fn new() -> (r: Self)
        ensures
            r.wf(),
            r@ == Seq::<FriendEntry>::empty(),
    {
        FriendsDatabase { friends: Vec::new() }
    }

    /// Sets the records of the person `name`: in place where the person is already there,
    /// else as a new person at the end.
    pub fn insert(&mut self, name: String, records: Vec<String>)
        requires
            old(self).wf(),
        ensures
            final(self).wf(),
            final(self)@ == with_entry(old(self)@, FriendEntry { name, records }),
    {
        let ghost added = FriendEntry { name, records };
        let mut i: usize = 0;
        while i < self.friends.len()
            invariant
                0 <= i <= self.friends@.len(),
                self.friends@ == old(self).friends@,
                old(self).wf(),
                added == (FriendEntry { name, records }),
                forall|j: int| 0 <= j < i ==> self.friends@[j].name@ != name@,
            decreases self.friends@.len() - i,
        {
            if self.friends[i].name == name {
                let ghost before = self.friends@;
                let entry = FriendEntry { name, records };
                self.friends.set(i, entry);
                proof {
                    assert(forall|j: int|
                        0 <= j < before.len() ==> (#[trigger] self.friends@[j]).name@
                            == before[j].name@);
                    assert(exists|c: int| 0 <= c < before.len() && before[c].name@ == added.name@);
                    let c = choose|c: int| 0 <= c < before.len() && before[c].name@ == added.name@;
                    if c < i {
                        assert(before[c].name@ != before[i as int].name@);
                    } else if c > i {
                        assert(before[i as int].name@ != before[c].name@);
                    }
                    assert(self.friends@ =~= before.update(i as int, added));
                }
                return;
            }
            i = i + 1;
        }
        let entry = FriendEntry { name, records };
        self.friends.push(entry);
        assert(self.friends@ =~= old(self).friends@.push(added));
    }

    /// The number of persons.
    pub fn len(&self) -> (r: usize)
        ensures
            r == self@.len(),
    {
        self.friends.len()
    }

    /// The records of the `i`-th person.
    pub fn records(&self, i: usize) -> (r: &Vec<String>)
        requires
            i < self@.len(),
        ensures
            *r == self@[i as int].records,
    {
        &self.friends[i].records
    }

    /// Replaces the records of the `i`-th person.
    pub fn set_records(&mut self, i: usize, records: Vec<String>)
        requires
            old(self).wf(),
            i < old(self)@.len(),
        ensures
            final(self).wf(),
            final(self)@.len() == old(self)@.len(),
            final(self)@[i as int].name@ == old(self)@[i as int].name@,
            final(self)@[i as int].records == records,
            forall|j: int|
                0 <= j < old(self)@.len() && j != i ==> final(self)@[j] == old(self)@[j],
    {
        let name = self.friends[i].name.clone();
        self.friends.set(i, FriendEntry { name, records });
    }

    /// The bytes that all records take together.
    pub fn database_size(&self) -> (r: usize)
        requires
            total_bytes(self@) <= usize::MAX,
        ensures
            r == total_bytes(self@),
    {
        let ghost entries = self.friends@;
        let mut sum: usize = 0;
        let mut i: usize = 0;
        assert(entries.take(0) =~= Seq::<FriendEntry>::empty());
        while i < self.friends.len()
            invariant
                entries == self.friends@,
                0 <= i <= entries.len(),
                sum == total_bytes(entries.take(i as int)),
                total_bytes(entries) <= usize::MAX,
            decreases entries.len() - i,
        {
            assert(entries.take(i + 1).drop_last() =~= entries.take(i as int));
            proof {
                lemma_total_prefix(entries, i + 1);
            }
            let ghost bound = (usize::MAX - sum) as nat;
            let part = records_size(&self.friends[i].records, Ghost(bound));
            sum = sum + part;
            i = i + 1;
        }
        assert(entries.take(i as int) =~= entries);
        sum
    }

    /// Accepts a summarised database only if its records fit the limit.
    pub fn check_size(&self) -> (r: Result<usize, OptimizeError>)
        requires
            total_bytes(self@) <= usize::MAX,
        ensures
            total_bytes(self@) <= DATABASE_SIZE_LIMIT <==> r == Ok::<usize, OptimizeError>(
                total_bytes(self@) as usize,
            ),
            total_bytes(self@) > DATABASE_SIZE_LIMIT <==> r == Err::<usize, OptimizeError>(
                OptimizeError::TooBig(total_bytes(self@) as usize),
            ),
    {
        let size = self.database_size();
        if size > DATABASE_SIZE_LIMIT {
            Err(OptimizeError::TooBig(size))
        } else {
            Ok(size)
        }
    }

    /// The database as text for the answer: per person a heading, the name, then the
    /// records, one per line.
    pub fn generate_llm_context(self) -> (r: String)
        ensures
            r@ == database_text(self@),
    {
        let ghost entries = self.friends@;
        let mut out = String::new();
        let mut i: usize = 0;
        assert(entries.take(0) =~= Seq::<FriendEntry>::empty());
        while i < self.friends.len()
            invariant
                entries == self.friends@,
                0 <= i <= entries.len(),
                out@ == database_text(entries.take(i as int)),
            decreases entries.len() - i,
        {
            assert(entries.take(i + 1).drop_last() =~= entries.take(i as int));
            let e = &self.friends[i];
            out.append("# ");
            out.append(e.name.as_str());
            out.append("\n");
            out.append(e.name.as_str());
            append_records(&mut out, &e.records);
            i = i + 1;
            assert(out@ =~= database_text(entries.take(i as int)));
        }
        assert(entries.take(i as int) =~= entries);
        out
    }
}

} // verus!
