//! One page of candles: decoding the upstream body, the URL that asks for
//! a page, and the name under which a page is stored.

use crate::text::{int_chars, push_int};
use vstd::prelude::*;
use vstd::string::*;

verus! {

/// One tuple of the upstream body, in upstream order: open time, open, high,
/// low, close, volume, close time, quote asset volume, number of trades,
/// taker buy base volume, taker buy quote volume, ignore. The price and volume
/// positions carry decimal text.
pub type Row = (i64, String, String, String, String, String, i64, String, i64, String, String, String);

/// What a [`Row`] holds, as plain values.
pub type RowView = (
    i64,
    Seq<char>,
    Seq<char>,
    Seq<char>,
    Seq<char>,
    Seq<char>,
    i64,
    Seq<char>,
    i64,
    Seq<char>,
    Seq<char>,
    Seq<char>,
);

pub open spec fn row_view(r: Row) -> RowView {
    (r.0, r.1@, r.2@, r.3@, r.4@, r.5@, r.6, r.7@, r.8, r.9@, r.10@, r.11@)
}

/// The rows of a JSON array of 12-position tuples whose integer positions
/// hold integers and whose other positions hold strings; `None` where the
/// bytes are not such an array.
pub uninterp spec fn json_rows(b: Seq<u8>) -> Option<Seq<RowView>>;

#[verifier::external_type_specification]
#[verifier::external_body]
pub struct ExJsonError(serde_json::Error);

/// Relies on serde_json::from_slice: parses the body as an array of
/// fixed-arity tuples, failing on bad JSON, a wrong arity or a wrong type.
#[verifier::external_body]
fn parse_rows(b: &[u8]) -> (r: Result<Vec<Row>, serde_json::Error>)
    ensures
        r is Ok <==> json_rows(b@) is Some,
        r is Ok ==> r->Ok_0@.map_values(|x: Row| row_view(x)) == json_rows(b@)->Some_0,
{
    serde_json::from_slice(b)
}

/// One OHLCV bar. Prices and volumes are kept as the decimal text the
/// source sent.
#[derive(Debug, Clone)]
pub struct Candle {
    pub open_time: i64,
    pub open: String,
    pub high: String,
    pub low: String,
    pub close: String,
    pub volume: String,
    pub close_time: i64,
    pub quote_asset_volume: String,
    pub number_of_trades: i64,
    pub taker_buy_base_asset_volume: String,
    pub taker_buy_quote_asset_volume: String,
    pub ignore: String,
}

impl View for Candle {
    type V = RowView;

    open spec fn view(&self) -> RowView {
        (
            self.open_time,
            self.open@,
            self.high@,
            self.low@,
            self.close@,
            self.volume@,
            self.close_time,
            self.quote_asset_volume@,
            self.number_of_trades,
            self.taker_buy_base_asset_volume@,
            self.taker_buy_quote_asset_volume@,
            self.ignore@,
        )
    }
}

/// Why a page body was refused. No page is ever partly accepted.
#[derive(Debug, Clone, Copy, PartialEq, Eq, Structural)]
pub enum DecodeError {
    /// Not a JSON array of 12-position tuples with integer and string positions.
    Syntax,
    /// A price or volume position of the tuple at `index` is not a decimal number.
    NotANumber { index: usize },
    /// The tuple at `index` closes before it opens.
    TimeOrder { index: usize },
}

pub open spec fn is_digit(c: char) -> bool {
    '0' <= c && c <= '9'
}

/// Number of `.` characters in `s`.
pub open spec fn count_dots(s: Seq<char>) -> nat
    decreases s.len(),
{
    if s.len() == 0 {
        0
    } else {
        count_dots(s.drop_last()) + if s.last() == '.' { 1nat } else { 0nat }
    }
}

/// Number of decimal digits in `s`.
pub open spec fn count_digits(s: Seq<char>) -> nat
    decreases s.len(),
{
    if s.len() == 0 {
        0
    } else {
        count_digits(s.drop_last()) + if is_digit(s.last()) { 1nat } else { 0nat }
    }
}

/// The digits of a decimal number after an optional sign.
pub open spec fn unsigned_part(s: Seq<char>) -> Seq<char> {
    if s.len() > 0 && (s[0] == '-' || s[0] == '+') {
        s.subrange(1, s.len() as int)
    } else {
        s
    }
}

/// A decimal number: an optional sign, then digits with at most one `.`
/// among them, and at least one digit.
pub open spec fn is_decimal(s: Seq<char>) -> bool {
    let u = unsigned_part(s);
    &&& forall|i: int| 0 <= i < u.len() ==> is_digit(#[trigger] u[i]) || u[i] == '.'
    &&& count_dots(u) <= 1
    &&& count_digits(u) >= 1
}

/// What is wrong with one tuple, if anything.
pub open spec fn row_error(r: RowView, index: usize) -> Option<DecodeError> {
    if !(is_decimal(r.1) && is_decimal(r.2) && is_decimal(r.3) && is_decimal(r.4) && is_decimal(
        r.5,
    ) && is_decimal(r.7) && is_decimal(r.9) && is_decimal(r.10) && is_decimal(r.11)) {
        Some(DecodeError::NotANumber { index })
    } else if r.0 > r.6 {
        Some(DecodeError::TimeOrder { index })
    } else {
        None
    }
}

/// The error of the first faulty tuple of `rows`, if any.
pub open spec fn rows_error(rows: Seq<RowView>) -> Option<DecodeError>
    decreases rows.len(),
{
    if rows.len() == 0 {
        None
    } else {
        match rows_error(rows.drop_last()) {
            Some(e) => Some(e),
            None => row_error(rows.last(), (rows.len() - 1) as usize),
        }
    }
}

/// What decoding a body gives: the candles, or the error.
pub open spec fn decoded(b: Seq<u8>) -> Result<Seq<RowView>, DecodeError> {
    match json_rows(b) {
        None => Err(DecodeError::Syntax),
        Some(rows) => match rows_error(rows) {
            Some(e) => Err(e),
            None => Ok(rows),
        },
    }
}

/// Whether `s` is a decimal number.
pub fn check_decimal(s: &String) -> (r: bool)
    ensures
        r == is_decimal(s@),
{
    let t = s.as_str();
    let n = t.unicode_len();
    let mut start: usize = 0;
    if n > 0 {
        let c0 = t.get_char(0);
        if c0 == '-' || c0 == '+' {
            start = 1;
        }
    }
    let ghost u = unsigned_part(s@);
    assert(u =~= s@.subrange(start as int, n as int));
    let mut dots: usize = 0;
    let mut digits: usize = 0;
    let mut i: usize = start;
    while i < n
        invariant
            start <= i <= n,
            n == s@.len(),
            t@ == s@,
            u == s@.subrange(start as int, n as int),
            u == unsigned_part(s@),
            forall|k: int| 0 <= k < i - start ==> is_digit(#[trigger] u[k]) || u[k] == '.',
            dots as nat == count_dots(u.subrange(0, i - start)),
            digits as nat == count_digits(u.subrange(0, i - start)),
            dots <= 1,
            digits <= i - start,
        decreases n - i,
    {
        let c = t.get_char(i);
        assert(u.subrange(0, i + 1 - start).drop_last() =~= u.subrange(0, i - start));
        assert(u[i - start] == c);
        assert(u.subrange(0, i + 1 - start).last() == c);
        if c == '.' {
            if dots == 1 {
                proof {
                    lemma_count_dots_prefix(u, i + 1 - start);
                    assert(count_dots(u.subrange(0, i + 1 - start)) == 2);
                }
                return false;
            }
            dots = dots + 1;
        } else if '0' <= c && c <= '9' {
            digits = digits + 1;
        } else {
            assert(!(is_digit(u[i - start]) || u[i - start] == '.'));
            return false;
        }
        i = i + 1;
    }
    assert(u.subrange(0, n - start) =~= u);
    digits >= 1
}

proof fn lemma_count_dots_prefix(u: Seq<char>, k: int)
    requires
        0 <= k <= u.len(),
    ensures
        count_dots(u.subrange(0, k)) <= count_dots(u),
    decreases u.len() - k,
{
    if k < u.len() {
        lemma_count_dots_prefix(u, k + 1);
        assert(u.subrange(0, k + 1).drop_last() =~= u.subrange(0, k));
    } else {
        assert(u.subrange(0, k) =~= u);
    }
}


pub open spec fn rows_view(rows: Seq<Row>) -> Seq<RowView> {
    rows.map_values(|x: Row| row_view(x))
}

pub open spec fn candles_view(cs: Seq<Candle>) -> Seq<RowView> {
    cs.map_values(|c: Candle| c@)
}

proof fn lemma_rows_error_prefix(rows: Seq<RowView>, k: int)
    requires
        0 <= k <= rows.len(),
        rows_error(rows.subrange(0, k)) is Some,
    ensures
        rows_error(rows) == rows_error(rows.subrange(0, k)),
    decreases rows.len() - k,
{
    if k < rows.len() {
        assert(rows.subrange(0, k + 1).drop_last() =~= rows.subrange(0, k));
        lemma_rows_error_prefix(rows, k + 1);
    } else {
        assert(rows.subrange(0, k) =~= rows);
    }
}

fn row_fault(r: &Row, index: usize) -> (e: Option<DecodeError>)
    ensures
        e == row_error(row_view(*r), index),
{
    if !(check_decimal(&r.1) && check_decimal(&r.2) && check_decimal(&r.3) && check_decimal(&r.4)
        && check_decimal(&r.5) && check_decimal(&r.7) && check_decimal(&r.9) && check_decimal(
        &r.10,
    ) && check_decimal(&r.11)) {
        Some(DecodeError::NotANumber { index })
    } else if r.0 > r.6 {
        Some(DecodeError::TimeOrder { index })
    } else {
        None
    }
}

/// Turns parsed rows into candles, all or nothing: the first tuple with a
/// non-decimal price or volume, or that closes before it opens, fails the page.
pub fn check_rows(rows: &Vec<Row>) -> (r: Result<Vec<Candle>, DecodeError>)
    ensures
        match rows_error(rows_view(rows@)) {
            Some(e) => r == Err::<Vec<Candle>, DecodeError>(e),
            None => r is Ok && candles_view(r->Ok_0@) == rows_view(rows@),
        },
{
    let ghost rv = rows_view(rows@);
    let mut out: Vec<Candle> = Vec::new();
    let mut i: usize = 0;
    while i < rows.len()
        invariant
            i <= rows.len(),
            rv == rows_view(rows@),
            candles_view(out@) == rv.subrange(0, i as int),
            rows_error(rv.subrange(0, i as int)) is None,
        decreases rows.len() - i,
    {
        let row = &rows[i];
        assert(rv.subrange(0, i + 1).drop_last() =~= rv.subrange(0, i as int));
        assert(rv.subrange(0, i + 1).last() == row_view(*row));
        match row_fault(row, i) {
            Some(e) => {
                proof {
                    lemma_rows_error_prefix(rv, i + 1);
                }
                return Err(e);
            },
            None => {},
        }
        let c = Candle {
            open_time: row.0,
            open: row.1.clone(),
            high: row.2.clone(),
            low: row.3.clone(),
            close: row.4.clone(),
            volume: row.5.clone(),
            close_time: row.6,
            quote_asset_volume: row.7.clone(),
            number_of_trades: row.8,
            taker_buy_base_asset_volume: row.9.clone(),
            taker_buy_quote_asset_volume: row.10.clone(),
            ignore: row.11.clone(),
        };
        out.push(c);
        i = i + 1;
        assert(candles_view(out@) =~= rv.subrange(0, i as int));
    }
    assert(rv.subrange(0, i as int) =~= rv);
    Ok(out)
}

/// Decodes one page body. An empty array gives an empty page; anything that
/// is not an array of well-formed tuples fails the whole page.
pub fn decode(b: &[u8]) -> (r: Result<Vec<Candle>, DecodeError>)
    ensures
        match decoded(b@) {
            Ok(rows) => r is Ok && candles_view(r->Ok_0@) == rows,
            Err(e) => r == Err::<Vec<Candle>, DecodeError>(e),
        },
{
    match parse_rows(b) {
        Ok(rows) => check_rows(&rows),
        Err(_) => Err(DecodeError::Syntax),
    }
}


/// The URL that asks for one page of `limit` candles from `start_time` on.
pub open spec fn request_url(
    api_url: Seq<char>,
    symbol: Seq<char>,
    interval: Seq<char>,
    start_time: i64,
    limit: Seq<char>,
) -> Seq<char> {
    api_url + "?symbol="@ + symbol + "&interval="@ + interval + "&startTime="@ + int_chars(
        start_time as int,
    ) + "&limit="@ + limit
}

/// The directory of one pair, relative to the storage root.
pub open spec fn pair_dir_name(symbol: Seq<char>, interval: Seq<char>) -> Seq<char> {
    symbol + "-"@ + interval
}

/// The artifact name of a page, relative to the storage root: fixed by the
/// pair and the page's first open time and last close time.
pub open spec fn page_file_name(
    symbol: Seq<char>,
    interval: Seq<char>,
    first_open: i64,
    last_close: i64,
) -> Seq<char> {
    pair_dir_name(symbol, interval) + "/"@ + symbol + "_"@ + int_chars(first_open as int) + "-"@
        + int_chars(last_close as int) + ".json"@
}

/// The artifact name of a non-empty page.
pub open spec fn page_name_of(symbol: Seq<char>, interval: Seq<char>, page: Seq<RowView>) -> Seq<
    char,
> {
    page_file_name(symbol, interval, page[0].0, page.last().6)
}

impl Candle {
    /// The request URL for a page of `limit` candles of `symbol` at
    /// `interval`, starting at `start_time`.
    pub fn format(api_url: &str, symbol: &str, interval: &str, start_time: i64, limit: &str) -> (r:
        String)
        ensures
            r@ == request_url(api_url@, symbol@, interval@, start_time, limit@),
    {
        let mut s = String::from_str(api_url);
        proof {
            reveal_strlit("?symbol=");
            reveal_strlit("&interval=");
            reveal_strlit("&startTime=");
            reveal_strlit("&limit=");
        }
        s.append("?symbol=");
        s.append(symbol);
        s.append("&interval=");
        s.append(interval);
        s.append("&startTime=");
        push_int(&mut s, start_time);
        s.append("&limit=");
        s.append(limit);
        s
    }
}

/// The directory that holds the pages of one pair.
pub fn pair_dir(symbol: &str, interval: &str) -> (r: String)
    ensures
        r@ == pair_dir_name(symbol@, interval@),
{
    let mut s = String::from_str(symbol);
    proof {
        reveal_strlit("-");
    }
    s.append("-");
    s.append(interval);
    s
}

/// The name under which a page is stored. Two pages with the same first open
/// time and last close time get the same name, so writing a page again
/// replaces the earlier copy.
pub fn page_name(symbol: &str, interval: &str, page: &Vec<Candle>) -> (r: String)
    requires
        page.len() > 0,
    ensures
        r@ == page_name_of(symbol@, interval@, candles_view(page@)),
{
    let mut s = pair_dir(symbol, interval);
    proof {
        reveal_strlit("/");
        reveal_strlit("_");
        reveal_strlit("-");
        reveal_strlit(".json");
    }
    s.append("/");
    s.append(symbol);
    s.append("_");
    push_int(&mut s, page[0].open_time);
    s.append("-");
    push_int(&mut s, page[page.len() - 1].close_time);
    s.append(".json");
    s
}

} // verus!
