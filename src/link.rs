use vstd::prelude::*;

use crate::code::is_alphanumeric;
use crate::validate::{valid_url, MAX_CUSTOM_LEN, MIN_CUSTOM_LEN};

verus! {

/// Largest value of a click counter (the store keeps it as a 32-bit integer).
pub const MAX_CLICKS: i32 = 0x7fff_ffff;

/// Largest identifier the store can hand out.
pub const MAX_ID: i64 = 0x7fff_ffff_ffff_ffff;

/// A shortened URL as stored.
#[derive(Debug)]
pub struct Link {
    pub id: i64,
    pub short_code: String,
    pub original_url: String,
    pub click_count: i32,
}

/// Totals over all stored links.
#[derive(Debug)]
pub struct LinkStats {
    pub total_links: i64,
    pub total_clicks: i64,
}

/// Failures of the store.
#[derive(Debug, Clone, Copy, PartialEq, Eq, Structural)]
pub enum StoreError {
    /// The unique constraint on `short_code` rejected an insert.
    DuplicateCode,
    /// Any other failure: transport, exhausted identifiers.
    Unavailable,
}

/// Mathematical view of a stored link.
pub struct LinkRow {
    pub id: int,
    pub short_code: Seq<char>,
    pub original_url: Seq<char>,
    pub click_count: int,
}

impl View for Link {
    type V = LinkRow;

    open spec fn view(&self) -> LinkRow {
        LinkRow {
            id: self.id as int,
            short_code: self.short_code@,
            original_url: self.original_url@,
            click_count: self.click_count as int,
        }
    }
}

/// Mathematical view of the store: its rows in order of creation, and the next identifier.
pub struct TableView {
    pub rows: Seq<LinkRow>,
    pub next_id: int,
}

/// Whether some row carries `code`.
pub open spec fn has_code(rows: Seq<LinkRow>, code: Seq<char>) -> bool {
    exists|i: int| 0 <= i < rows.len() && (#[trigger] rows[i]).short_code == code
}

/// Whether exactly one row carries `code`.
pub open spec fn exactly_one(rows: Seq<LinkRow>, code: Seq<char>) -> bool {
    exists|i: int|
        0 <= i < rows.len() && (#[trigger] rows[i]).short_code == code && forall|j: int|
            0 <= j < rows.len() && (#[trigger] rows[j]).short_code == code ==> j == i
}

/// The URL stored for `code`, if any.
pub open spec fn url_of(rows: Seq<LinkRow>, code: Seq<char>) -> Option<Seq<char>> {
    if has_code(rows, code) {
        Some(
            rows[choose|i: int| 0 <= i < rows.len() && (#[trigger] rows[i]).short_code == code].original_url,
        )
    } else {
        None
    }
}

/// In a store with unique codes, the row at `i` is the one that `url_of` reads for its code.
pub proof fn lemma_url_of_row(v: TableView, i: int)
    requires
        table_wf(v),
        0 <= i < v.rows.len(),
    ensures
        url_of(v.rows, v.rows[i].short_code) == Some(v.rows[i].original_url),
        exactly_one(v.rows, v.rows[i].short_code),
{
    let code = v.rows[i].short_code;
    assert(has_code(v.rows, code));
    let j = choose|j: int| 0 <= j < v.rows.len() && (#[trigger] v.rows[j]).short_code == code;
    assert(j == i);
}

/// A link that was created can be found under its code: the store then holds exactly one row
/// with that code, and that row leads to the URL it was created with.
pub proof fn created_link_resolves(v: TableView, code: Seq<char>, url: Seq<char>)
    requires
        table_wf(v),
        link_shape(code, url),
        create_spec(v, code, url).1 is Ok,
    ensures
        table_wf(create_spec(v, code, url).0),
        exactly_one(create_spec(v, code, url).0.rows, code),
        url_of(create_spec(v, code, url).0.rows, code) == Some(url),
{
    let w = create_spec(v, code, url).0;
    let n = v.rows.len();
    assert forall|i: int, j: int|
        0 <= i < w.rows.len() && 0 <= j < w.rows.len() && i != j implies (
        #[trigger] w.rows[i]).short_code != (#[trigger] w.rows[j]).short_code by {
        if i == n {
            assert(v.rows[j] == w.rows[j]);
        } else if j == n {
            assert(v.rows[i] == w.rows[i]);
        }
    }
    assert(w.rows[n as int].short_code == code);
    lemma_url_of_row(w, n as int);
}

/// The shape of every stored link: a code of 3 to 10 letters and digits, and a URL that starts
/// with `http://` or `https://`.
pub open spec fn link_shape(code: Seq<char>, url: Seq<char>) -> bool {
    MIN_CUSTOM_LEN <= code.len() <= MAX_CUSTOM_LEN && is_alphanumeric(code) && valid_url(url)
}

/// Well-formedness of the store: every row has the shape of a link, codes are unique, counters
/// are non-negative, and identifiers are positive, increasing in creation order and below the
/// next one to be handed out.
pub open spec fn table_wf(v: TableView) -> bool {
    &&& 1 <= v.next_id <= MAX_ID
    &&& v.rows.len() < v.next_id
    &&& forall|i: int, j: int|
        0 <= i < v.rows.len() && 0 <= j < v.rows.len() && i != j ==> (#[trigger] v.rows[i]).short_code
            != (#[trigger] v.rows[j]).short_code
    &&& forall|i: int|
        0 <= i < v.rows.len() ==> 1 <= (#[trigger] v.rows[i]).id < v.next_id && 0
            <= v.rows[i].click_count <= MAX_CLICKS
    &&& forall|i: int|
        0 <= i < v.rows.len() ==> link_shape(
            (#[trigger] v.rows[i]).short_code,
            v.rows[i].original_url,
        )
    &&& forall|i: int, j: int|
        0 <= i < j < v.rows.len() ==> (#[trigger] v.rows[i]).id < (#[trigger] v.rows[j]).id
}

/// The store after an insert of `code` and `url`, and the result of the insert: the unique
/// constraint rejects a present code; exhausted identifiers fail; otherwise a new row with the
/// next identifier and no clicks is appended.
pub open spec fn create_spec(v: TableView, code: Seq<char>, url: Seq<char>) -> (TableView, Result<
    i64,
    StoreError,
>) {
    if has_code(v.rows, code) {
        (v, Err(StoreError::DuplicateCode))
    } else if v.next_id >= MAX_ID {
        (v, Err(StoreError::Unavailable))
    } else {
        (
            TableView {
                rows: v.rows.push(
                    LinkRow { id: v.next_id, short_code: code, original_url: url, click_count: 0 },
                ),
                next_id: v.next_id + 1,
            },
            Ok(v.next_id as i64),
        )
    }
}

/// The row after one click: one more, unless the counter is full.
pub open spec fn bump_row(r: LinkRow) -> LinkRow {
    if r.click_count < MAX_CLICKS {
        LinkRow { click_count: r.click_count + 1, ..r }
    } else {
        r
    }
}

/// The rows after one click on `code`.
pub open spec fn bump(rows: Seq<LinkRow>, code: Seq<char>) -> Seq<LinkRow> {
    Seq::new(rows.len(), |i: int| if rows[i].short_code == code { bump_row(rows[i]) } else { rows[i] })
}

/// The rows after `n` clicks on `code`.
pub open spec fn bump_n(rows: Seq<LinkRow>, code: Seq<char>, n: nat) -> Seq<LinkRow>
    decreases n,
{
    if n == 0 {
        rows
    } else {
        bump(bump_n(rows, code, (n - 1) as nat), code)
    }
}

/// Sum of the click counters of `rows`.
pub open spec fn clicks_sum(rows: Seq<LinkRow>) -> int
    decreases rows.len(),
{
    if rows.len() == 0 {
        0
    } else {
        clicks_sum(rows.drop_last()) + rows.last().click_count
    }
}

/// The sum over a prefix of `rows` does not exceed the sum over all of them.
pub proof fn lemma_prefix_sum_le(rows: Seq<LinkRow>, k: int)
    requires
        0 <= k <= rows.len(),
        forall|i: int| 0 <= i < rows.len() ==> 0 <= (#[trigger] rows[i]).click_count,
    ensures
        clicks_sum(rows.take(k)) <= clicks_sum(rows),
    decreases rows.len() - k,
{
    if k == rows.len() {
        assert(rows.take(k) =~= rows);
    } else {
        assert(rows.take(k + 1).drop_last() =~= rows.take(k));
        lemma_prefix_sum_le(rows, k + 1);
    }
}

/// A copy of `l`.
fn copy_link(l: &Link) -> (r: Link)
    ensures
        r@ == l@,
{
    Link {
        id: l.id,
        short_code: l.short_code.clone(),
        original_url: l.original_url.clone(),
        click_count: l.click_count,
    }
}

/// The store, held in memory: every operation is atomic, and the unique constraint on
/// `short_code` is enforced at insert.
pub struct LinkTable {
    rows: Vec<Link>,
    next_id: i64,
}

impl View for LinkTable {
    type V = TableView;

    closed spec fn view(&self) -> TableView {
        TableView { rows: self.rows@.map_values(|l: Link| l@), next_id: self.next_id as int }
    }
}

impl LinkTable {
    pub open spec fn wf(&self) -> bool {
        table_wf(self@)
    }

    /// An empty store.
    pub fn new() -> (r: LinkTable)
        ensures
            r.wf(),
            r@.rows.len() == 0,
            r@.next_id == 1,
    {
        LinkTable { rows: Vec::new(), next_id: 1 }
    }

    /// Position of the row carrying `code`, if any.
    fn position(&self, code: &str) -> (r: Option<usize>)
        requires
            self.wf(),
        ensures
            r is None <==> !has_code(self@.rows, code@),
            r matches Some(i) ==> i < self@.rows.len() && self@.rows[i as int].short_code == code@,
    {
        let key = code.to_owned();
        let mut i: usize = 0;
        while i < self.rows.len()
            invariant
                i <= self.rows@.len(),
                key@ == code@,
                forall|j: int| 0 <= j < i ==> (#[trigger] self.rows@[j]).short_code@ != code@,
            decreases self.rows@.len() - i,
        {
            if self.rows[i].short_code == key {
                assert(self@.rows[i as int].short_code == code@);
                return Some(i);
            }
            i = i + 1;
        }
        proof {
            if has_code(self@.rows, code@) {
                let j = choose|j: int| 0 <= j < self@.rows.len() && (#[trigger] self@.rows[j]).short_code == code@;
                assert(self.rows@[j].short_code@ == code@);
            }
        }
        None
    }

    /// Whether a link with `code` exists.
    pub fn short_code_exists(&self, code: &str) -> (r: bool)
        requires
            self.wf(),
        ensures
            r == has_code(self@.rows, code@),
    {
        self.position(code).is_some()
    }

    /// Inserts a link for `short_code` and `original_url` with no clicks, and returns its new
    /// identifier; the unique constraint rejects a code that is already stored.
    pub fn create_link(&mut self, short_code: &str, original_url: &str) -> (r: Result<
        i64,
        StoreError,
    >)
        requires
            old(self).wf(),
            link_shape(short_code@, original_url@),
        ensures
            final(self).wf(),
            final(self)@ == create_spec(old(self)@, short_code@, original_url@).0,
            r == create_spec(old(self)@, short_code@, original_url@).1,
    {
        if self.position(short_code).is_some() {
            return Err(StoreError::DuplicateCode);
        }
        if self.next_id >= MAX_ID {
            return Err(StoreError::Unavailable);
        }
        let id = self.next_id;
        let link = Link {
            id,
            short_code: short_code.to_owned(),
            original_url: original_url.to_owned(),
            click_count: 0,
        };
        self.rows.push(link);
        self.next_id = id + 1;
        proof {
            let row = LinkRow {
                id: id as int,
                short_code: short_code@,
                original_url: original_url@,
                click_count: 0,
            };
            assert(self@.rows =~= old(self)@.rows.push(row));
            let v = self@;
            assert forall|i: int, j: int|
                0 <= i < v.rows.len() && 0 <= j < v.rows.len() && i != j implies (
                #[trigger] v.rows[i]).short_code != (#[trigger] v.rows[j]).short_code by {
                if i == v.rows.len() - 1 {
                    assert(old(self)@.rows[j] == v.rows[j]);
                } else if j == v.rows.len() - 1 {
                    assert(old(self)@.rows[i] == v.rows[i]);
                }
            }
        }
        Ok(id)
    }

    /// The stored link with `short_code`, if any.
    pub fn get_link_by_code(&self, short_code: &str) -> (r: Option<Link>)
        requires
            self.wf(),
        ensures
            r is None <==> !has_code(self@.rows, short_code@),
            r matches Some(l) ==> l@.short_code == short_code@ && exists|i: int|
                0 <= i < self@.rows.len() && self@.rows[i] == l@,
    {
        match self.position(short_code) {
            Some(i) => Some(copy_link(&self.rows[i])),
            None => None,
        }
    }

    /// Every stored link, newest first.
    pub fn get_all_links(&self) -> (r: Vec<Link>)
        requires
            self.wf(),
        ensures
            r@.map_values(|l: Link| l@) == self@.rows.reverse(),
    {
        let n = self.rows.len();
        let mut out: Vec<Link> = Vec::new();
        let mut k: usize = 0;
        while k < n
            invariant
                n == self.rows@.len(),
                k <= n,
                out@.len() == k,
                forall|j: int| 0 <= j < k ==> (#[trigger] out@[j])@ == self.rows@[n - 1 - j]@,
            decreases n - k,
        {
            out.push(copy_link(&self.rows[n - 1 - k]));
            k = k + 1;
        }
        assert(out@.map_values(|l: Link| l@) =~= self@.rows.reverse());
        out
    }

    /// Counts one click on the link with `short_code`; nothing happens where there is none, or
    /// where its counter is full.
    pub fn increment_clicks(&mut self, short_code: &str)
        requires
            old(self).wf(),
        ensures
            final(self).wf(),
            final(self)@.rows == bump(old(self)@.rows, short_code@),
            final(self)@.next_id == old(self)@.next_id,
    {
        match self.position(short_code) {
            Some(i) => {
                let c = self.rows[i].click_count;
                if c < MAX_CLICKS {
                    self.rows[i].click_count = c + 1;
                }
                proof {
                    let o = old(self)@.rows;
                    assert forall|j: int| 0 <= j < o.len() && j != i implies o[j].short_code
                        != short_code@ by {
                        assert(o[i as int].short_code == short_code@);
                    }
                    assert(self@.rows =~= bump(o, short_code@));
                }
            },
            None => {
                assert(self@.rows =~= bump(old(self)@.rows, short_code@));
            },
        }
    }

    /// Removes the link with `short_code`, and returns how many rows went (0 or 1).
    pub fn delete_link(&mut self, short_code: &str) -> (r: u64)
        requires
            old(self).wf(),
        ensures
            final(self).wf(),
            final(self)@.next_id == old(self)@.next_id,
            r == (if has_code(old(self)@.rows, short_code@) { 1u64 } else { 0u64 }),
            !has_code(old(self)@.rows, short_code@) ==> final(self)@ == old(self)@,
            has_code(old(self)@.rows, short_code@) ==> exists|i: int|
                0 <= i < old(self)@.rows.len() && old(self)@.rows[i].short_code == short_code@
                    && final(self)@.rows == old(self)@.rows.remove(i),
    {
        match self.position(short_code) {
            Some(i) => {
                self.rows.remove(i);
                proof {
                    assert(self@.rows =~= old(self)@.rows.remove(i as int));
                    let v = self@;
                    let o = old(self)@.rows;
                    assert forall|a: int, b: int|
                        0 <= a < v.rows.len() && 0 <= b < v.rows.len() && a != b implies (
                        #[trigger] v.rows[a]).short_code != (#[trigger] v.rows[b]).short_code by {
                        let a2 = if a < i { a } else { a + 1 };
                        let b2 = if b < i { b } else { b + 1 };
                        assert(v.rows[a] == o[a2]);
                        assert(v.rows[b] == o[b2]);
                    }
                    assert forall|a: int| 0 <= a < v.rows.len() implies 1 <= (
                    #[trigger] v.rows[a]).id < v.next_id && 0 <= v.rows[a].click_count
                        <= MAX_CLICKS by {
                        let a2 = if a < i { a } else { a + 1 };
                        assert(v.rows[a] == o[a2]);
                    }
                }
                1
            },
            None => {
                assert(self@.rows =~= old(self)@.rows);
                0
            },
        }
    }

    /// The number of links and the sum of their click counters.
    pub fn get_stats(&self) -> (r: LinkStats)
        requires
            self.wf(),
            clicks_sum(self@.rows) <= i64::MAX,
        ensures
            r.total_links == self@.rows.len(),
            r.total_clicks == clicks_sum(self@.rows),
    {
        let n = self.rows.len();
        let mut total: i64 = 0;
        let mut k: usize = 0;
        proof {
            assert(self@.rows.take(0) =~= Seq::<LinkRow>::empty());
        }
        while k < n
            invariant
                n == self@.rows.len(),
                k <= n,
                self.wf(),
                clicks_sum(self@.rows) <= i64::MAX,
                total == clicks_sum(self@.rows.take(k as int)),
            decreases n - k,
        {
            let ghost rows = self@.rows;
            proof {
                assert(rows.take(k + 1).drop_last() =~= rows.take(k as int));
                lemma_prefix_sum_le(rows, k + 1);
                assert(rows[k as int].click_count == self.rows@[k as int].click_count);
            }
            total = total + self.rows[k].click_count as i64;
            k = k + 1;
        }
        assert(self@.rows.take(n as int) =~= self@.rows);
        LinkStats { total_links: n as i64, total_clicks: total }
    }
}

} // verus!
