//! Files that clients put on a session's host: which fit, what they may be called, and what
//! they are charged.
use crate::entropy;
use crate::ipc::errors::HandlerError;
use crate::path;
use crate::text;
use vstd::prelude::*;
use vstd::string::*;
use vstd::utf8::*;

verus! {

/// What a store may hold where nobody says otherwise.
pub const FILE_STORE_CAP_BYTES: u64 = 536_870_912;

/// The longest name that a file may have, in bytes.
pub const MAX_PUT_FILE_NAME_BYTES: usize = 128;

/// The sum of some lengths.
pub open spec fn sum(lens: Seq<u64>) -> nat
    decreases lens.len(),
{
    if lens.len() == 0 {
        0
    } else {
        sum(lens.drop_last()) + lens.last() as nat
    }
}

/// What files of these lengths hold together, or all that can be counted.
pub fn logical_bytes(lens: &Vec<u64>) -> (total: u64)
    ensures
        total == (if sum(lens@) <= u64::MAX {
            sum(lens@)
        } else {
            u64::MAX as nat
        }),
{
    let mut total: u64 = 0;
    let mut i: usize = 0;
    assert(lens@.take(0) =~= seq![]);
    while i < lens.len()
        invariant
            i <= lens@.len(),
            total == (if sum(lens@.take(i as int)) <= u64::MAX {
                sum(lens@.take(i as int))
            } else {
                u64::MAX as nat
            }),
        decreases lens@.len() - i,
    {
        assert(lens@.take(i + 1).drop_last() =~= lens@.take(i as int));
        total = total.saturating_add(lens[i]);
        i = i + 1;
    }
    assert(lens@.take(i as int) =~= lens@);
    total
}

/// Where uploads land, and how much of its room is taken. Nothing is ever evicted.
#[derive(Debug, PartialEq, Eq)]
pub struct FileStore {
    pub root: String,
    pub cap: u64,
    /// The bytes charged so far.
    pub used: u64,
}

/// The words for a store without room.
pub open spec fn full(used: u64, cap: u64, bytes: u64) -> Seq<char> {
    "the host's file store holds "@ + text::decimal(used as nat) + " of its "@ + text::decimal(
        cap as nat,
    ) + " byte cap and cannot take "@ + text::decimal(bytes as nat)
        + " more; restart the session to clear it"@
}

/// A place that an upload is admitted to.
#[derive(Debug, PartialEq, Eq)]
pub struct Admission {
    /// A directory of its own.
    pub dir: String,
    pub bytes: u64,
}

impl FileStore {
    /// A store over a directory that holds files of these lengths.
    pub fn new(root: String, lens: &Vec<u64>) -> (store: FileStore)
        ensures
            store.root == root,
            store.cap == 536_870_912,
            store.used == (if sum(lens@) <= u64::MAX {
                sum(lens@)
            } else {
                u64::MAX as nat
            }),
    {
        FileStore::with_cap(root, FILE_STORE_CAP_BYTES, lens)
    }

    /// A store with its cap stated.
    pub fn with_cap(root: String, cap: u64, lens: &Vec<u64>) -> (store: FileStore)
        ensures
            store.root == root,
            store.cap == cap,
            store.used == (if sum(lens@) <= u64::MAX {
                sum(lens@)
            } else {
                u64::MAX as nat
            }),
    {
        FileStore { root, cap, used: logical_bytes(lens) }
    }

    pub fn root(&self) -> (root: &str)
        ensures
            root@ == self.root@,
    {
        self.root.as_str()
    }

    /// Whether so many bytes fit.
    pub open spec fn fits(self, bytes: u64) -> bool {
        self.used + bytes <= self.cap
    }

    /// The store with so many bytes more.
    pub open spec fn charged(self, bytes: u64) -> FileStore {
        FileStore { used: (self.used + bytes) as u64, ..self }
    }

    /// The store with so many bytes given back.
    pub open spec fn refunded(self, bytes: u64) -> FileStore {
        FileStore {
            used: if self.used >= bytes {
                (self.used - bytes) as u64
            } else {
                0
            },
            ..self
        }
    }

    /// The store after a run of uploads, those that do not fit turned away.
    pub open spec fn after(self, uploads: Seq<u64>) -> FileStore
        decreases uploads.len(),
    {
        if uploads.len() == 0 {
            self
        } else {
            let before = self.after(uploads.drop_last());
            if before.fits(uploads.last()) {
                before.charged(uploads.last())
            } else {
                before
            }
        }
    }

    /// Whether the store has room for an upload.
    fn has_room(&self, bytes: u64) -> (yes: bool)
        ensures
            yes == self.fits(bytes),
    {
        match self.used.checked_add(bytes) {
            Some(after) => after <= self.cap,
            None => false,
        }
    }

    /// The refusal of an upload that does not fit.
    fn store_full(&self, bytes: u64) -> (out: HandlerError)
        ensures
            out.says("store-full"@, full(self.used, self.cap, bytes)),
    {
        let mut words = text::join5(
            "the host's file store holds ",
            text::decimal_u64(self.used).as_str(),
            " of its ",
            text::decimal_u64(self.cap).as_str(),
            " byte cap and cannot take ",
        );
        words.append(text::decimal_u64(bytes).as_str());
        words.append(" more; restart the session to clear it");
        HandlerError::new("store-full", words)
    }

    /// Decides whether an upload fits, and names the directory it would have to itself.
    /// Nothing is charged yet.
    pub fn admission(&self, bytes: u64, name: &str) -> (out: Result<Admission, HandlerError>)
        ensures
            out is Ok <==> self.fits(bytes),
            out matches Ok(a) ==> a.bytes == bytes && a.dir@ == path::joined(self.root@, name@),
            out matches Err(e) ==> e.says("store-full"@, full(self.used, self.cap, bytes)),
    {
        if self.has_room(bytes) {
            Ok(Admission { dir: path::join(self.root.as_str(), name), bytes })
        } else {
            Err(self.store_full(bytes))
        }
    }

    /// Decides whether an upload fits, with a fresh name for its directory. One that does not
    /// fit is refused before a name is drawn. None where one fits and the operating system
    /// has no randomness to give.
    pub fn fresh_admission(&self, bytes: u64) -> (out: Option<Result<Admission, HandlerError>>)
        ensures
            !self.fits(bytes) ==> (out matches Some(Err(e)) && e.says(
                "store-full"@,
                full(self.used, self.cap, bytes),
            )),
            self.fits(bytes) ==> !(out matches Some(Err(_))),
            out matches Some(Ok(a)) ==> a.bytes == bytes && exists|random: Seq<u8>|
                random.len() == 8 && a.dir@ == path::joined(
                    self.root@,
                    #[trigger] entropy::hex_of(random),
                ),
    {
        if !self.has_room(bytes) {
            return Some(Err(self.store_full(bytes)));
        }
        match entropy::random_name() {
            None => None,
            Some(name) => Some(self.admission(bytes, name.as_str())),
        }
    }

    /// Charges an admitted upload once its directory is there. One that could not be made
    /// costs nothing.
    pub fn claim(&mut self, admission: &Admission, made: Result<(), String>) -> (out: Result<
        (),
        HandlerError,
    >)
        requires
            old(self).fits(admission.bytes),
        ensures
            made is Ok ==> out is Ok && *final(self) == old(self).charged(admission.bytes),
            made matches Err(why) ==> *final(self) == *old(self) && (out matches Err(e)
                && e.says(
                "internal"@,
                "could not create the upload directory "@ + admission.dir@ + ": "@ + why@,
            )),
    {
        match made {
            Ok(_) => {
                self.used = self.used + admission.bytes;
                Ok(())
            },
            Err(why) => Err(
                HandlerError::internal(
                    text::join4(
                        "could not create the upload directory ",
                        admission.dir.as_str(),
                        ": ",
                        why.as_str(),
                    ),
                ),
            ),
        }
    }

    /// Settles an upload that could not be written. Its charge goes back only where its
    /// directory is gone: bytes that are still there still count.
    pub fn settle(
        &mut self,
        admission: &Admission,
        name: &str,
        error: String,
        removed: Result<(), String>,
    ) -> (out: HandlerError)
        ensures
            removed is Ok ==> *final(self) == old(self).refunded(admission.bytes),
            removed is Err ==> *final(self) == *old(self),
            removed is Ok ==> out.says(
                "internal"@,
                "could not land "@ + path::joined(admission.dir@, name@) + ": "@ + error@,
            ),
            removed matches Err(cleanup) ==> out.says(
                "internal"@,
                "could not land "@ + path::joined(admission.dir@, name@) + ": "@ + error@
                    + "; and could not remove it: "@ + cleanup@
                    + " (its bytes stay charged against the store)"@,
            ),
    {
        let place = path::join(admission.dir.as_str(), name);
        let mut words = text::join4("could not land ", place.as_str(), ": ", error.as_str());
        match removed {
            Ok(_) => {
                self.used = self.used.saturating_sub(admission.bytes);
            },
            Err(cleanup) => {
                words.append("; and could not remove it: ");
                words.append(cleanup.as_str());
                words.append(" (its bytes stay charged against the store)");
            },
        }
        HandlerError::internal(words)
    }
}

/// A store never takes more than it may: whatever is put to it, and in whatever order, what
/// it charges stays within the cap, and it charges nothing where an upload does not fit.
pub proof fn law_a_store_never_over_admits(store: FileStore, uploads: Seq<u64>)
    requires
        store.used <= store.cap,
    ensures
        store.used <= store.after(uploads).used <= store.cap,
        store.after(uploads).cap == store.cap,
        store.after(uploads).root == store.root,
    decreases uploads.len(),
{
    if uploads.len() > 0 {
        law_a_store_never_over_admits(store, uploads.drop_last());
    }
}

/// An upload that failed and was cleared away leaves the store as it found it.
pub proof fn law_a_cleared_upload_costs_nothing(store: FileStore, bytes: u64)
    requires
        store.fits(bytes),
    ensures
        store.charged(bytes).refunded(bytes) == store,
{
}

/// The name a file is written under until all of it is there.
pub const PART_NAME: &'static str = ".part~";

/// Whether a character may stand in a file's name.
pub open spec fn plain(c: char) -> bool {
    ('a' <= c && c <= 'z') || ('A' <= c && c <= 'Z') || ('0' <= c && c <= '9') || c == '.' || c
        == '_' || c == '-'
}

/// What is wrong with a file's name, the first thing first.
pub open spec fn name_fault(name: Seq<char>) -> Option<Seq<char>> {
    if name.len() == 0 {
        Some("must not be empty"@)
    } else if encode_utf8(name).len() > 128 {
        Some("is longer than 128 bytes"@)
    } else if name == "."@ || name == ".."@ {
        Some("is a directory reference, not a file name"@)
    } else if name[0] == '-' {
        Some("must not start with '-'"@)
    } else if !(forall|i: int| 0 <= i < name.len() ==> #[trigger] plain(name[i])) {
        Some("must be a bare basename of [A-Za-z0-9._-]"@)
    } else {
        None
    }
}

fn refuse_name(name: &str, why: &str) -> (out: Result<(), HandlerError>)
    ensures
        out matches Err(e) && e.says(
            "invalid-param"@,
            "name "@ + text::debug_text(name@) + " "@ + why@,
        ),
{
    Err(
        HandlerError::invalid_param(
            text::join4("name ", text::quoted(name).as_str(), " ", why),
        ),
    )
}

/// Takes a file's name or refuses it; a name is never repaired. What is taken can be pasted
/// bare, names no directory, and cannot be taken for an option.
pub fn validate_put_file_name(name: &str) -> (out: Result<(), HandlerError>)
    ensures
        out is Ok <==> name_fault(name@) is None,
        out matches Err(e) ==> e.says(
            "invalid-param"@,
            "name "@ + text::debug_text(name@) + " "@ + name_fault(name@)->0,
        ),
{
    let chars = text::chars_of(name);
    if chars.len() == 0 {
        return refuse_name(name, "must not be empty");
    }
    if name.as_bytes().len() > MAX_PUT_FILE_NAME_BYTES {
        return refuse_name(name, "is longer than 128 bytes");
    }
    if text::same_text(name, ".") || text::same_text(name, "..") {
        return refuse_name(name, "is a directory reference, not a file name");
    }
    if chars[0] == '-' {
        return refuse_name(name, "must not start with '-'");
    }
    let mut i: usize = 0;
    while i < chars.len()
        invariant
            i <= chars@.len(),
            chars@ == name@,
            name@.len() > 0,
            encode_utf8(name@).len() <= 128,
            name@ != "."@ && name@ != ".."@,
            name@[0] != '-',
            forall|k: int| 0 <= k < i ==> #[trigger] plain(name@[k]),
        decreases chars@.len() - i,
    {
        let c = chars[i];
        let fine: bool = ('a' <= c && c <= 'z') || ('A' <= c && c <= 'Z') || ('0' <= c && c
            <= '9') || c == '.' || c == '_' || c == '-';
        if !fine {
            assert(!plain(name@[i as int]));
            return refuse_name(name, "must be a bare basename of [A-Za-z0-9._-]");
        }
        i = i + 1;
    }
    Ok(())
}

/// A name that is taken never climbs out of its directory, and is never the name a file has
/// while it is being written.
pub proof fn law_a_taken_name_stays_put(name: Seq<char>)
    requires
        name_fault(name) is None,
    ensures
        !name.contains('/'),
        name != PART_NAME@,
        name != ".."@,
        path::name_of(name) == Some(name),
{
    if name.contains('/') {
        let i = choose|i: int| 0 <= i < name.len() && name[i] == '/';
        assert(plain(name[i]));
    }
    reveal_strlit(".part~");
    if name == PART_NAME@ {
        assert(plain(name[5]));
    }
    text::lemma_first_of(name, '/');
    if text::first_of(name, '/') < name.len() {
        assert(name[text::first_of(name, '/')] == '/');
    }
    assert(text::pieces(name, '/') =~= seq![name]);
    assert(seq![name].last() == name);
}

/// The words for a file that is too large.
pub open spec fn over(cap: u64) -> Seq<char> {
    "this file is over the "@ + text::decimal(cap as nat) + " byte cap on one upload"@
}

/// A file that is too large.
pub fn too_large(cap: u64) -> (out: HandlerError)
    ensures
        out.says("too-large"@, over(cap)),
{
    HandlerError::new(
        "too-large",
        text::join3(
            "this file is over the ",
            text::decimal_u64(cap).as_str(),
            " byte cap on one upload",
        ),
    )
}

/// How many characters carry so many bytes: four for every three, the last ones rounded up.
pub open spec fn carried(bytes: nat) -> nat {
    (bytes + 2) / 3 * 4
}

/// Refuses an upload by the length it has on the wire, before it is decoded. A file a byte or
/// two over the cap may pass, and is caught once it is decoded. What has no such length is
/// the decoder's to name.
pub fn put_file_size_guard(encoded: Option<u64>, cap: u64) -> (out: Result<(), HandlerError>)
    requires
        carried(cap as nat) <= u64::MAX,
    ensures
        out is Ok <==> !(encoded matches Some(len) && len > carried(cap as nat)),
        out matches Err(e) ==> e.says("too-large"@, over(cap)),
{
    match encoded {
        Some(len) => {
            let most: u64 = (cap + 2) / 3 * 4;
            if len > most {
                return Err(too_large(cap));
            }
        },
        None => {},
    }
    Ok(())
}

/// The coarse check never refuses what fits: a file within the cap has no longer a spelling
/// than the cap itself.
pub proof fn law_the_guard_refuses_nothing_that_fits(bytes: nat, cap: nat)
    requires
        bytes <= cap,
    ensures
        carried(bytes) <= carried(cap),
{
}

/// Decides whether a session takes an upload at all: it has a store, the name is one, and
/// the file is within the cap.
pub fn session_put_file(has_store: bool, name: &str, bytes: u64, cap: u64) -> (out: Result<
    (),
    HandlerError,
>)
    ensures
        out is Ok <==> has_store && name_fault(name@) is None && bytes <= cap,
        !has_store ==> (out matches Err(e) && e.says(
            "not-supported"@,
            "this session cannot receive files: it was built without a file store"@,
        )),
        has_store && name_fault(name@) is Some ==> (out matches Err(e) && e.says(
            "invalid-param"@,
            "name "@ + text::debug_text(name@) + " "@ + name_fault(name@)->0,
        )),
        has_store && name_fault(name@) is None && bytes > cap ==> (out matches Err(e) && e.says(
            "too-large"@,
            over(cap),
        )),
{
    if !has_store {
        return Err(
            HandlerError::new(
                "not-supported",
                "this session cannot receive files: it was built without a file store".to_owned(),
            ),
        );
    }
    match validate_put_file_name(name) {
        Err(e) => {
            return Err(e);
        },
        Ok(_) => {},
    }
    if bytes > cap {
        return Err(too_large(cap));
    }
    Ok(())
}

/// What a store holds: an upload fits up to the cap and not a byte further; one that is taken
/// adds its bytes, one that is given back takes them off, never below nothing; the cap and the
/// place stay.
pub proof fn law_a_store_counts_every_byte(store: FileStore, bytes: u64)
    ensures
        store.fits(bytes) <==> store.used + bytes <= store.cap,
        store.fits(bytes) ==> store.charged(bytes).used == store.used + bytes,
        store.charged(bytes).cap == store.cap,
        store.charged(bytes).root == store.root,
        store.used >= bytes ==> store.refunded(bytes).used == store.used - bytes,
        store.used < bytes ==> store.refunded(bytes).used == 0,
        store.refunded(bytes).cap == store.cap,
        store.refunded(bytes).root == store.root,
{
}

/// The files of a store add up.
pub proof fn law_every_file_is_counted(lens: Seq<u64>, len: u64)
    ensures
        sum(seq![]) == 0,
        sum(lens.push(len)) == sum(lens) + len,
{
    assert(lens.push(len).drop_last() =~= lens);
}

/// Each upload of a series is taken where it fits what the ones before it left, and passed over
/// where it does not.
pub proof fn law_each_upload_is_taken_where_it_fits(store: FileStore, uploads: Seq<u64>, next: u64)
    ensures
        store.after(seq![]) == store,
        store.after(uploads).used + next <= store.after(uploads).cap ==> store.after(
            uploads.push(next),
        ) == store.after(uploads).charged(next),
        store.after(uploads).used + next > store.after(uploads).cap ==> store.after(
            uploads.push(next),
        ) == store.after(uploads),
{
    assert(uploads.push(next).drop_last() =~= uploads);
}

/// What a full store says: what it holds, what it may hold, and what it was asked to take.
pub proof fn law_a_full_store_says_its_numbers(used: u64, cap: u64, bytes: u64)
    ensures
        full(used, cap, bytes) == "the host's file store holds "@ + text::decimal(used as nat)
            + " of its "@ + text::decimal(cap as nat) + " byte cap and cannot take "@
            + text::decimal(bytes as nat) + " more; restart the session to clear it"@,
        over(cap) == "this file is over the "@ + text::decimal(cap as nat)
            + " byte cap on one upload"@,
{
}

/// What a file may be called: letters, digits, dots, underscores and dashes, a dash not first,
/// at least one of them and at most as many as a name may have, and neither of the two names for
/// a directory. Anything else is refused for its first fault.
pub proof fn law_a_name_is_refused_for_its_first_fault(name: Seq<char>)
    ensures
        ({
            let long = encode_utf8(name).len() > 128;
            let dots = name == "."@ || name == ".."@;
            let bare = forall|i: int|
                0 <= i < name.len() ==> {
                    let c = #[trigger] name[i];
                    'a' <= c <= 'z' || 'A' <= c <= 'Z' || '0' <= c <= '9' || c == '.' || c == '_'
                        || c == '-'
                };
            &&& name_fault(name) is None <==> name.len() > 0 && !long && !dots && name[0] != '-'
                && bare
            &&& name.len() == 0 ==> name_fault(name) == Some("must not be empty"@)
            &&& name.len() > 0 && long ==> name_fault(name) == Some("is longer than 128 bytes"@)
            &&& name.len() > 0 && !long && dots ==> name_fault(name) == Some(
                "is a directory reference, not a file name"@,
            )
            &&& name.len() > 0 && !long && !dots && name[0] == '-' ==> name_fault(name) == Some(
                "must not start with '-'"@,
            )
            &&& name.len() > 0 && !long && !dots && name[0] != '-' && !bare ==> name_fault(name)
                == Some("must be a bare basename of [A-Za-z0-9._-]"@)
        }),
{
    if forall|i: int| 0 <= i < name.len() ==> #[trigger] plain(name[i]) {
        assert forall|i: int| 0 <= i < name.len() implies {
            let c = #[trigger] name[i];
            'a' <= c <= 'z' || 'A' <= c <= 'Z' || '0' <= c <= '9' || c == '.' || c == '_' || c
                == '-'
        } by {
            assert(plain(name[i]));
        }
    }
}

/// What bytes take on the wire: four characters for every three bytes, and four for what is
/// left over.
pub proof fn law_three_bytes_travel_as_four(thirds: nat)
    ensures
        carried(3 * thirds) == 4 * thirds,
        carried(3 * thirds + 1) == 4 * thirds + 4,
        carried(3 * thirds + 2) == 4 * thirds + 4,
{
}

} // verus!
