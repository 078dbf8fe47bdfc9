//! Paste identifiers, and the storage paths that they resolve to.
use crate::path::{child, is_plain_name, join};
use crate::text::{after, chars_of};
use rand::Rng;
use vstd::prelude::*;
use vstd::string::{StrSliceExecFns, StringExecFns};

verus! {

/// The 62 symbols of an identifier: the digits, then the upper-case and the
/// lower-case letters.
pub open spec fn alphabet() -> Seq<char> {
    "0123456789ABCDEFGHIJKLMNOPQRSTUVWXYZabcdefghijklmnopqrstuvwxyz"@
}

/// Whether `c` is a digit or an ASCII letter.
pub open spec fn is_base62(c: char) -> bool {
    ('0' <= c <= '9') || ('A' <= c <= 'Z') || ('a' <= c <= 'z')
}

/// Whether `s` holds symbols of the alphabet only.
pub open spec fn is_identifier(s: Seq<char>) -> bool {
    forall|i: int| 0 <= i < s.len() ==> is_base62(#[trigger] s[i])
}

/// The identifier that a run of samples spells: each sample picks the
/// symbol at its remainder by 62.
pub open spec fn spelled(samples: Seq<usize>) -> Seq<char> {
    Seq::new(samples.len(), |i: int| alphabet()[(samples[i] % 62) as int])
}

/// The name of the owner of a paste: `anonymous` where none is given.
pub open spec fn owner_name(owner: Option<Seq<char>>) -> Seq<char> {
    match owner {
        Some(name) => name,
        None => "anonymous"@,
    }
}

/// Where a paste is stored: under the upload root, in the directory of its
/// owner, under its identifier.
pub open spec fn storage_path(root: Seq<char>, owner: Option<Seq<char>>, id: Seq<char>) -> Seq<
    char,
> {
    child(child(root, owner_name(owner)), id)
}

/// The alphabet has 62 symbols, each a digit or an ASCII letter.
pub proof fn lemma_alphabet()
    ensures
        alphabet().len() == 62,
        is_identifier(alphabet()),
{
    reveal_strlit("0123456789ABCDEFGHIJKLMNOPQRSTUVWXYZabcdefghijklmnopqrstuvwxyz");
}

/// An identifier names an entry of the directory it is stored in.
pub proof fn lemma_identifier_is_plain(id: Seq<char>)
    requires
        is_identifier(id),
    ensures
        is_plain_name(id),
{
    if id.contains('/') {
        let i = choose|i: int| 0 <= i < id.len() && id[i] == '/';
        assert(is_base62(id[i]));
    }
    if id == seq!['.'] || id == seq!['.', '.'] {
        assert(is_base62(id[0]));
    }
}

/// A paste lands in the directory of its owner, which is that of
/// `anonymous` where no owner is given: its path is that directory, a
/// separator, and the identifier, which names an entry of it.
pub proof fn lemma_path_under_owner(root: Seq<char>, owner: Option<Seq<char>>, id: Seq<char>)
    requires
        is_identifier(id),
    ensures
        after(storage_path(root, owner, id), child(root, owner_name(owner)) + seq!['/']) == Some(
            id,
        ),
        is_plain_name(id),
        owner is None ==> child(root, owner_name(owner)) == child(root, "anonymous"@),
{
    let dir = child(root, owner_name(owner)) + seq!['/'];
    let path = storage_path(root, owner, id);
    assert(path =~= dir + id);
    assert(path.subrange(0, dir.len() as int) =~= dir);
    assert(path.skip(dir.len() as int) =~= id);
    lemma_identifier_is_plain(id);
}

/// No paste escapes the upload root, where the owner's name is a plain
/// name: its path is the root followed by two names, neither of which leads
/// out of the directory it is looked up in.
pub proof fn lemma_path_under_root(root: Seq<char>, owner: Option<Seq<char>>, id: Seq<char>)
    requires
        is_identifier(id),
        owner matches Some(name) ==> is_plain_name(name),
    ensures
        after(storage_path(root, owner, id), root + seq!['/']) == Some(
            owner_name(owner) + seq!['/'] + id,
        ),
        is_plain_name(owner_name(owner)),
        is_plain_name(id),
{
    let lead = root + seq!['/'];
    let rest = owner_name(owner) + seq!['/'] + id;
    let path = storage_path(root, owner, id);
    assert(path =~= lead + rest);
    assert(path.subrange(0, lead.len() as int) =~= lead);
    assert(path.skip(lead.len() as int) =~= rest);
    lemma_identifier_is_plain(id);
    if owner is None {
        reveal_strlit("anonymous");
        let name = "anonymous"@;
        assert(name.len() == 9);
        if name.contains('/') {
            let i = choose|i: int| 0 <= i < name.len() && name[i] == '/';
            assert(name[i] != '/');
        }
    }
}

/// The place of a symbol in the alphabet.
pub open spec fn symbol_index(c: char) -> int {
    if '0' <= c <= '9' {
        c as int - '0' as int
    } else if 'A' <= c <= 'Z' {
        c as int - 'A' as int + 10
    } else {
        c as int - 'a' as int + 36
    }
}

/// The number that an identifier spells, its symbols read as digits to the
/// base of 62.
pub open spec fn identifier_number(id: Seq<char>) -> int
    decreases id.len(),
{
    if id.len() == 0 {
        0
    } else {
        identifier_number(id.drop_last()) * 62 + symbol_index(id.last())
    }
}

/// The number of identifiers of `len` symbols: 62 to the power of `len`.
pub open spec fn capacity(len: nat) -> nat
    decreases len,
{
    if len == 0 {
        1
    } else {
        62 * capacity((len - 1) as nat)
    }
}

/// An identifier spells a number below the number of identifiers of its
/// length.
proof fn lemma_number_bound(id: Seq<char>)
    requires
        is_identifier(id),
    ensures
        0 <= identifier_number(id) < capacity(id.len()),
    decreases id.len(),
{
    if id.len() > 0 {
        let front = id.drop_last();
        assert forall|i: int| 0 <= i < front.len() implies is_base62(#[trigger] front[i]) by {
            assert(front[i] == id[i]);
        }
        lemma_number_bound(front);
        assert(is_base62(id.last()));
        assert(0 <= symbol_index(id.last()) < 62);
    }
}

/// Two identifiers of one length that spell the same number are the same.
proof fn lemma_number_injective(a: Seq<char>, b: Seq<char>)
    requires
        is_identifier(a),
        is_identifier(b),
        a.len() == b.len(),
        identifier_number(a) == identifier_number(b),
    ensures
        a == b,
    decreases a.len(),
{
    if a.len() == 0 {
        assert(a =~= b);
    } else {
        let fa = a.drop_last();
        let fb = b.drop_last();
        assert forall|i: int| 0 <= i < fa.len() implies is_base62(#[trigger] fa[i]) by {
            assert(fa[i] == a[i]);
        }
        assert forall|i: int| 0 <= i < fb.len() implies is_base62(#[trigger] fb[i]) by {
            assert(fb[i] == b[i]);
        }
        assert(is_base62(a.last()) && is_base62(b.last()));
        let x = symbol_index(a.last());
        let y = symbol_index(b.last());
        assert(0 <= x < 62 && 0 <= y < 62);
        assert(identifier_number(fa) == identifier_number(fb) && x == y) by {
            let m = identifier_number(fa);
            let n = identifier_number(fb);
            assert(m * 62 + x == n * 62 + y);
            if m < n {
                assert(n * 62 >= (m + 1) * 62) by (nonlinear_arith)
                    requires
                        m < n,
                ;
            }
            if n < m {
                assert(m * 62 >= (n + 1) * 62) by (nonlinear_arith)
                    requires
                        n < m,
                ;
            }
        }
        lemma_number_injective(fa, fb);
        assert(a.last() == b.last());
        assert(a =~= fa.push(a.last()));
        assert(b =~= fb.push(b.last()));
    }
}

/// More numbers than `bound`, each from 0 up to `bound`, hold one twice.
proof fn lemma_pigeonhole(numbers: Seq<int>, bound: int)
    requires
        forall|i: int| 0 <= i < numbers.len() ==> 0 <= #[trigger] numbers[i] < bound,
        numbers.len() > bound,
        bound >= 0,
    ensures
        exists|i: int, j: int|
            0 <= i < j < numbers.len() && #[trigger] numbers[i] == #[trigger] numbers[j],
{
    if numbers.no_duplicates() {
        numbers.unique_seq_to_set();
        let range = vstd::set_lib::set_int_range(0, bound);
        vstd::set_lib::lemma_int_range(0, bound);
        assert(numbers.to_set().subset_of(range)) by {
            assert forall|x: int| numbers.to_set().contains(x) implies range.contains(x) by {
                let i = choose|i: int| 0 <= i < numbers.len() && numbers[i] == x;
                assert(0 <= numbers[i] < bound);
            }
        }
        vstd::set_lib::lemma_len_subset(numbers.to_set(), range);
        assert(false);
    } else {
        let (i, j) = choose|i: int, j: int|
            0 <= i < numbers.len() && 0 <= j < numbers.len() && i != j && numbers[i] == numbers[j];
        if i < j {
            assert(0 <= i < j < numbers.len() && numbers[i] == numbers[j]);
        } else {
            assert(0 <= j < i < numbers.len() && numbers[j] == numbers[i]);
        }
    }
}

/// Collisions: among more identifiers of one length than there are
/// identifiers of that length, two are the same. There are 3844
/// identifiers of two symbols.
pub proof fn lemma_collision(ids: Seq<Seq<char>>, len: nat)
    requires
        forall|i: int| 0 <= i < ids.len() ==> is_identifier(#[trigger] ids[i]) && ids[i].len() == len,
        ids.len() > capacity(len),
    ensures
        exists|i: int, j: int| 0 <= i < j < ids.len() && #[trigger] ids[i] == #[trigger] ids[j],
        capacity(2) == 3844,
{
    let numbers = Seq::new(ids.len(), |i: int| identifier_number(ids[i]));
    assert forall|i: int| 0 <= i < numbers.len() implies 0 <= #[trigger] numbers[i] < capacity(
        len,
    ) by {
        lemma_number_bound(ids[i]);
    }
    lemma_pigeonhole(numbers, capacity(len) as int);
    let (i, j) = choose|i: int, j: int|
        0 <= i < j < numbers.len() && #[trigger] numbers[i] == #[trigger] numbers[j];
    lemma_number_injective(ids[i], ids[j]);
    assert(0 <= i < j < ids.len() && ids[i] == ids[j]);
    assert(capacity(2) == 3844) by {
        reveal_with_fuel(capacity, 3);
    }
}

/// Calls `rand::thread_rng` and draws a `usize` from it. Nothing is
/// promised of the result. `rand` stops the program where the system gives
/// it no seed.
#[verifier::external_body]
fn random_word() -> usize {
    rand::thread_rng().gen::<usize>()
}

/// The identifier of a paste: symbols of the alphabet.
#[derive(Debug, PartialEq, Eq)]
pub struct PasteId(String);

impl View for PasteId {
    type V = Seq<char>;

    closed spec fn view(&self) -> Seq<char> {
        self.0@
    }
}

impl Clone for PasteId {
    fn clone(&self) -> (id: Self)
        ensures
            id@ == self@,
    {
        proof {
            use_type_invariant(self);
        }
        PasteId(self.0.clone())
    }
}

impl PasteId {
    #[verifier::type_invariant]
    spec fn well_formed(self) -> bool {
        is_identifier(self.0@)
    }

    /// The identifier that `samples` spell.
    pub fn from_samples(samples: &[usize]) -> (id: PasteId)
        ensures
            id@ == spelled(samples@),
            is_identifier(id@),
    {
        let symbols = "0123456789ABCDEFGHIJKLMNOPQRSTUVWXYZabcdefghijklmnopqrstuvwxyz";
        proof {
            reveal_strlit("0123456789ABCDEFGHIJKLMNOPQRSTUVWXYZabcdefghijklmnopqrstuvwxyz");
            lemma_alphabet();
        }
        let mut text = String::new();
        let mut i: usize = 0;
        while i < samples.len()
            invariant
                i <= samples.len(),
                symbols@ == alphabet(),
                symbols.is_ascii(),
                alphabet().len() == 62,
                is_identifier(alphabet()),
                text@ == spelled(samples@.take(i as int)),
                is_identifier(text@),
            decreases samples.len() - i,
        {
            let k = samples[i] % 62;
            let symbol = symbols.substring_ascii(k, k + 1);
            text.append(symbol);
            proof {
                assert(symbol@ =~= seq![alphabet()[k as int]]);
                assert(is_base62(alphabet()[k as int]));
                assert(text@ =~= spelled(samples@.take(i + 1)));
            }
            i += 1;
        }
        proof {
            assert(samples@.take(i as int) =~= samples@);
        }
        PasteId(text)
    }

    /// Draws an identifier of `size` symbols at random: it is spelled by
    /// `size` samples.
    pub fn new(size: usize) -> (id: PasteId)
        ensures
            id@.len() == size,
            is_identifier(id@),
            exists|samples: Seq<usize>| samples.len() == size && id@ == #[trigger] spelled(samples),
    {
        let mut samples: Vec<usize> = Vec::new();
        let mut i: usize = 0;
        while i < size
            invariant
                i <= size,
                samples@.len() == i,
            decreases size - i,
        {
            samples.push(random_word());
            i += 1;
        }
        PasteId::from_samples(samples.as_slice())
    }

    /// Takes an identifier that a request names, if it holds symbols of the
    /// alphabet only; hands the text back if it does not.
    pub fn from_param(param: &str) -> (r: Result<PasteId, &str>)
        ensures
            is_identifier(param@) ==> (r matches Ok(id) && id@ == param@),
            !is_identifier(param@) ==> (r matches Err(refused) && refused@ == param@),
    {
        let chars = chars_of(param);
        let mut i: usize = 0;
        while i < chars.len()
            invariant
                i <= chars.len(),
                chars@ == param@,
                is_identifier(chars@.take(i as int)),
            decreases chars.len() - i,
        {
            let c = chars[i];
            if !((c >= '0' && c <= '9') || (c >= 'A' && c <= 'Z') || (c >= 'a' && c <= 'z')) {
                assert(!is_base62(param@[i as int]));
                return Err(param);
            }
            proof {
                let longer = chars@.take(i + 1);
                assert forall|j: int| 0 <= j < longer.len() implies is_base62(
                    #[trigger] longer[j],
                ) by {
                    if j < i {
                        assert(chars@.take(i as int)[j] == longer[j]);
                    }
                }
            }
            i += 1;
        }
        proof {
            assert(chars@.take(i as int) =~= param@);
        }
        Ok(PasteId(param.to_owned()))
    }

    /// The identifier as text.
    pub fn as_str(&self) -> (text: &str)
        ensures
            text@ == self@,
            is_identifier(self@),
    {
        proof {
            use_type_invariant(self);
        }
        self.0.as_str()
    }

    /// The path at which the paste is stored for its owner, below `root`.
    /// The owner's name is taken as it is: the path stays below `root` where
    /// that name is a plain name, which `is_plain` tests. The root is taken
    /// as it is too: an empty one gives a path that begins with the
    /// separator, and so one from the root of the file system, not one
    /// relative to the working directory.
    pub fn file_path(&self, root: &str, owner_id: &Option<String>) -> (path: String)
        ensures
            path@ == storage_path(
                root@,
                match owner_id {
                    Some(name) => Some(name@),
                    None => None,
                },
                self@,
            ),
            is_identifier(self@),
    {
        proof {
            use_type_invariant(self);
        }
        let dir = match owner_id {
            Some(name) => join(root, name.as_str()),
            None => join(root, "anonymous"),
        };
        join(dir.as_str(), self.0.as_str())
    }
}

} // verus!
