//! What the store client makes of the store's answers: values are read as
//! UTF-8 text, a missing key is an error, and listings can be paged.
use vstd::prelude::*;
use vstd::utf8::{decode_utf8, valid_utf8};

verus! {

/// A key and its value as the store returns them, as raw bytes.
#[derive(Debug)]
pub struct KeyValue {
    pub key: Vec<u8>,
    pub value: Vec<u8>,
}

/// Why reading the store's answer failed.
#[derive(Debug, PartialEq, Eq, Structural)]
pub enum LookupError {
    /// The store holds nothing under the key.
    KeyNotFound,
    /// A value is not valid UTF-8.
    InvalidUtf8,
}

/// Calls `std::str::from_utf8` on `bytes` and copies the text out. As the
/// standard library documents, it fails exactly when the bytes are not valid
/// UTF-8, and otherwise decodes them.
#[verifier::external_body]
fn utf8_text(bytes: &[u8]) -> (r: Option<String>)
    ensures
        r is Some <==> valid_utf8(bytes@),
        r is Some ==> r->0@ == decode_utf8(bytes@),
{
    match std::str::from_utf8(bytes) {
        Ok(text) => Some(text.to_string()),
        Err(_) => None,
    }
}

/// Whether every value among `kvs` is valid UTF-8.
pub open spec fn all_valid(kvs: Seq<KeyValue>) -> bool {
    forall|i: int| 0 <= i < kvs.len() ==> valid_utf8(#[trigger] kvs[i].value@)
}

/// The texts of the values among `kvs`, in their order.
pub open spec fn texts_of(kvs: Seq<KeyValue>) -> Seq<Seq<char>> {
    kvs.map_values(|kv: KeyValue| decode_utf8(kv.value@))
}

/// Reads the value of a single-key answer: the first value's text,
/// `KeyNotFound` when the answer is empty, `InvalidUtf8` when the value is not text.
pub fn first_value(kvs: &Vec<KeyValue>) -> (r: Result<String, LookupError>)
    ensures
        kvs.len() == 0 ==> r == Err::<String, LookupError>(LookupError::KeyNotFound),
        kvs.len() > 0 && !valid_utf8(kvs@[0].value@) ==> r == Err::<String, LookupError>(
            LookupError::InvalidUtf8,
        ),
        kvs.len() > 0 && valid_utf8(kvs@[0].value@) ==> r is Ok && r->Ok_0@ == decode_utf8(
            kvs@[0].value@,
        ),
{
    if kvs.len() == 0 {
        return Err(LookupError::KeyNotFound);
    }
    match utf8_text(kvs[0].value.as_slice()) {
        Some(text) => Ok(text),
        None => Err(LookupError::InvalidUtf8),
    }
}

/// Decides whether a delete goes on: only a key that the store holds (its
/// answer to a read is not empty) is deleted, else `KeyNotFound`.
pub fn key_found(kvs: &Vec<KeyValue>) -> (r: Result<(), LookupError>)
    ensures
        kvs.len() > 0 ==> r == Ok::<(), LookupError>(()),
        kvs.len() == 0 ==> r == Err::<(), LookupError>(LookupError::KeyNotFound),
{
    if kvs.len() == 0 {
        Err(LookupError::KeyNotFound)
    } else {
        Ok(())
    }
}

/// Reads the values of a listing: their texts in order, or `InvalidUtf8`
/// when one of them is not text.
pub fn all_values(kvs: &Vec<KeyValue>) -> (r: Result<Vec<String>, LookupError>)
    ensures
        all_valid(kvs@) ==> r is Ok && r->Ok_0@.map_values(|s: String| s@) == texts_of(kvs@),
        !all_valid(kvs@) ==> r == Err::<Vec<String>, LookupError>(LookupError::InvalidUtf8),
{
    let mut values: Vec<String> = Vec::new();
    let mut i: usize = 0;
    while i < kvs.len()
        invariant
            i <= kvs.len(),
            all_valid(kvs@.take(i as int)),
            values@.map_values(|s: String| s@) == texts_of(kvs@.take(i as int)),
        decreases kvs.len() - i,
    {
        match utf8_text(kvs[i].value.as_slice()) {
            Some(text) => {
                let ghost old_values = values@;
                values.push(text);
                proof {
                    assert(values@ =~= old_values.push(text));
                    assert(text@ == decode_utf8(kvs@[i as int].value@));
                    assert(values@.map_values(|s: String| s@) =~= old_values.map_values(
                        |s: String| s@,
                    ).push(text@));
                    assert(kvs@.take(i + 1) =~= kvs@.take(i as int).push(kvs@[i as int]));
                    assert(texts_of(kvs@.take(i + 1)) =~= texts_of(kvs@.take(i as int)).push(
                        decode_utf8(kvs@[i as int].value@),
                    ));
                    assert(values@.map_values(|s: String| s@) =~= texts_of(kvs@.take(i + 1)));
                }
                i = i + 1;
            },
            None => {
                assert(!valid_utf8(kvs@[i as int].value@));
                return Err(LookupError::InvalidUtf8);
            },
        }
    }
    assert(kvs@.take(i as int) =~= kvs@);
    Ok(values)
}

/// A request for one page of a listing: `limit` values per page, pages
/// counted from 1 (page 0 is read as page 1).
pub struct PaginateRequest {
    limit: usize,
    page: usize,
}

impl PaginateRequest {
    pub closed spec fn spec_limit(&self) -> usize {
        self.limit
    }

    pub closed spec fn spec_page(&self) -> usize {
        self.page
    }

    pub fn new(limit: usize, page: usize) -> (r: PaginateRequest)
        ensures
            r.spec_limit() == limit,
            r.spec_page() == page,
    {
        PaginateRequest { limit: limit, page: page }
    }

    /// The number of values per page.
    pub fn limit(&self) -> (r: usize)
        ensures
            r == self.spec_limit(),
    {
        self.limit
    }

    /// The requested page (0 is read as 1).
    pub fn page(&self) -> (r: usize)
        ensures
            r == self.spec_page(),
    {
        self.page
    }
}

/// One page of a listing and the size of the whole listing.
pub struct PaginateResult {
    pub count: usize,
    pub values: Vec<String>,
}

impl PaginateResult {
    /// An empty page of a listing of `count` values.
    pub fn new(count: usize) -> (r: PaginateResult)
        ensures
            r.count == count,
            r.values@.len() == 0,
    {
        PaginateResult { count: count, values: vec![] }
    }

    /// Adds `value` at the end of the page.
    pub fn push(&mut self, value: String)
        ensures
            final(self).count == old(self).count,
            final(self).values@ == old(self).values@.push(value),
    {
        self.values.push(value);
    }

    /// The values of the page, in order.
    pub fn get_values(&self) -> (r: &Vec<String>)
        ensures
            r == &self.values,
    {
        &self.values
    }

    /// The size of the whole listing.
    pub fn get_count(&self) -> (r: usize)
        ensures
            r == self.count,
    {
        self.count
    }
}

/// The page that a request asks for: the page number, with 0 read as 1.
pub open spec fn effective_page(page: usize) -> int {
    if page == 0 { 1 } else { page as int }
}

/// The index of the first value of the requested page.
pub open spec fn page_start(limit: usize, page: usize) -> int {
    effective_page(page) * limit - limit
}

/// The index after the last value of the requested page, in a listing of `len` values.
pub open spec fn page_end(limit: usize, page: usize, len: int) -> int {
    if len < effective_page(page) * limit { len } else { effective_page(page) * limit }
}

/// The key-value pairs that the requested page shows (none when it starts
/// past the end of the listing).
pub open spec fn page_window(kvs: Seq<KeyValue>, limit: usize, page: usize) -> Seq<KeyValue> {
    if page_start(limit, page) < page_end(limit, page, kvs.len() as int) {
        kvs.subrange(page_start(limit, page), page_end(limit, page, kvs.len() as int))
    } else {
        Seq::empty()
    }
}

/// Cuts the requested page out of a listing: the texts of the values from
/// `page_start` to `page_end`, and the size of the whole listing; or
/// `InvalidUtf8` when a value on the page is not text.
pub fn paginate(kvs: &Vec<KeyValue>, request: &PaginateRequest) -> (r: Result<
    PaginateResult,
    LookupError,
>)
    requires
        effective_page(request.spec_page()) * request.spec_limit() <= usize::MAX,
    ensures
        all_valid(page_window(kvs@, request.spec_limit(), request.spec_page())) ==> r is Ok
            && r->Ok_0.count == kvs.len() && r->Ok_0.values@.map_values(|s: String| s@)
            == texts_of(page_window(kvs@, request.spec_limit(), request.spec_page())),
        !all_valid(page_window(kvs@, request.spec_limit(), request.spec_page())) ==> r
            == Err::<PaginateResult, LookupError>(LookupError::InvalidUtf8),
{
    let length: usize = kvs.len();
    let mut page: usize = request.page;
    if page == 0 {
        page = 1;
    }
    assert(page * request.limit >= request.limit) by (nonlinear_arith)
        requires
            page >= 1,
    ;
    let first_index: usize = page * request.limit - request.limit;
    let max_index_in_request: usize = first_index + request.limit;
    let max_index_in_keys: usize = if length < max_index_in_request {
        length
    } else {
        max_index_in_request
    };
    let ghost window = page_window(kvs@, request.limit, request.page);
    let mut paginate_result: PaginateResult = PaginateResult::new(length);
    let mut i: usize = first_index;
    while i < max_index_in_keys
        invariant
            first_index <= i,
            i <= max_index_in_keys || max_index_in_keys < first_index,
            max_index_in_keys <= kvs.len(),
            first_index == page_start(request.limit, request.page),
            max_index_in_keys == page_end(request.limit, request.page, kvs.len() as int),
            window == page_window(kvs@, request.limit, request.page),
            first_index < max_index_in_keys ==> window == kvs@.subrange(
                first_index as int,
                max_index_in_keys as int,
            ),
            paginate_result.count == length,
            length == kvs.len(),
            i < max_index_in_keys ==> all_valid(
                window.take(i - first_index),
            ) && paginate_result.values@.map_values(|s: String| s@) == texts_of(
                window.take(i - first_index),
            ),
            i >= max_index_in_keys && first_index < max_index_in_keys ==> all_valid(window)
                && paginate_result.values@.map_values(|s: String| s@) == texts_of(window),
            first_index >= max_index_in_keys ==> paginate_result.values@.len() == 0,
        decreases max_index_in_keys - i,
    {
        match utf8_text(kvs[i].value.as_slice()) {
            Some(text) => {
                let ghost old_values = paginate_result.values@;
                paginate_result.push(text);
                proof {
                    let k: int = i - first_index;
                    assert(window[k] == kvs@[i as int]);
                    assert(window.take(k + 1) =~= window.take(k).push(kvs@[i as int]));
                    assert(paginate_result.values@ =~= old_values.push(text));
                    assert(text@ == decode_utf8(kvs@[i as int].value@));
                    assert(paginate_result.values@.map_values(|s: String| s@) =~= old_values.map_values(
                        |s: String| s@,
                    ).push(text@));
                    assert(texts_of(window.take(k + 1)) =~= texts_of(window.take(k)).push(
                        decode_utf8(kvs@[i as int].value@),
                    ));
                    assert(paginate_result.values@.map_values(|s: String| s@) =~= texts_of(
                        window.take(k + 1),
                    ));
                    if i + 1 >= max_index_in_keys {
                        assert(window.take(k + 1) =~= window);
                    }
                }
                i = i + 1;
            },
            None => {
                assert(window[i - first_index] == kvs@[i as int]);
                return Err(LookupError::InvalidUtf8);
            },
        }
    }
    proof {
        if first_index >= max_index_in_keys {
            assert(window =~= Seq::<KeyValue>::empty());
            assert(paginate_result.values@.map_values(|s: String| s@) =~= texts_of(window));
        }
    }
    Ok(paginate_result)
}

/// Page 0 is page 1.
pub proof fn lemma_page_zero_is_page_one(kvs: Seq<KeyValue>, limit: usize)
    ensures
        page_window(kvs, limit, 0) == page_window(kvs, limit, 1),
{
}

/// Consecutive pages are adjacent: page `p + 1` starts where page `p` ends
/// when the listing reaches that far, so paging through a listing shows each
/// value once, in order.
pub proof fn lemma_pages_adjacent(kvs: Seq<KeyValue>, limit: usize, page: usize)
    requires
        1 <= page < usize::MAX,
    ensures
        page_start(limit, (page + 1) as usize) == page_start(limit, page) + limit,
        page_start(limit, page) + limit <= kvs.len() ==> page_end(limit, page, kvs.len() as int)
            == page_start(limit, (page + 1) as usize),
{
    assert((page + 1) * limit == page * limit + limit) by (nonlinear_arith);
    assert(effective_page((page + 1) as usize) == page + 1);
}

/// A page at least as long as the listing, asked for as page 1 (or 0),
/// shows the whole listing.
pub proof fn lemma_single_page(kvs: Seq<KeyValue>, limit: usize)
    requires
        kvs.len() <= limit,
        0 < kvs.len(),
    ensures
        page_window(kvs, limit, 1) == kvs,
{
    assert(kvs.subrange(0, kvs.len() as int) =~= kvs);
}

/// Every value of a listing is on its page: with `limit` values per page,
/// the value at index `i` is shown by page `i / limit + 1`, at position
/// `i % limit`. Together with `lemma_page_within_listing` (a page is a run of
/// at most `limit` consecutive values, starting at `page_start`), paging
/// through pages 1, 2, ... shows every value exactly once, in order; a page
/// holds `limit` values, or what is left of the listing on the last one.
pub proof fn lemma_every_value_on_its_page(kvs: Seq<KeyValue>, limit: usize, i: int)
    requires
        0 < limit,
        0 <= i < kvs.len(),
        kvs.len() <= usize::MAX,
    ensures
        ({
            let page = (i / limit as int + 1) as usize;
            &&& page_start(limit, page) <= i
            &&& i % (limit as int) < page_window(kvs, limit, page).len()
            &&& page_window(kvs, limit, page)[i % (limit as int)] == kvs[i]
            &&& page_window(kvs, limit, page).len() == (if kvs.len() - page_start(limit, page)
                < limit {
                kvs.len() - page_start(limit, page)
            } else {
                limit as int
            })
        }),
{
    let l = limit as int;
    let q = i / l;
    let r = i % l;
    vstd::arithmetic::div_mod::lemma_fundamental_div_mod(i, l);
    assert(0 <= r < l);
    assert(q >= 0) by (nonlinear_arith)
        requires
            i >= 0,
            l > 0,
            q == i / l,
    ;
    assert(q <= i) by (nonlinear_arith)
        requires
            i >= 0,
            l > 0,
            q == i / l,
    ;
    let page = (q + 1) as usize;
    assert(effective_page(page) == q + 1);
    assert((q + 1) * l == q * l + l) by (nonlinear_arith);
    assert(page_start(limit, page) == q * l);
    assert(i == q * l + r);
}

/// Every page is a run of consecutive values of the listing.
pub proof fn lemma_page_within_listing(kvs: Seq<KeyValue>, limit: usize, page: usize)
    ensures
        page_window(kvs, limit, page).len() <= limit,
        forall|i: int|
            0 <= i < page_window(kvs, limit, page).len() ==> #[trigger] page_window(
                kvs,
                limit,
                page,
            )[i] == kvs[page_start(limit, page) + i],
{
    let m: int = effective_page(page) * limit;
    assert(m >= limit) by (nonlinear_arith)
        requires
            effective_page(page) >= 1,
            m == effective_page(page) * limit,
    ;
}

} // verus!
