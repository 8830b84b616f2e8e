//! Decoding of protocol responses.
//!
//! A response is a handful of lines: zero or more result lines, each a
//! `|`-separated list of key=value rows, and exactly one status line.
//! A response without a status line is itself an error. Lines are
//! compared after trimming, so the two-byte terminator never counts as
//! a result line.

use vstd::prelude::*;
use crate::strutil::chars_has_prefix;
use crate::strutil::chars_to_string;
use crate::strutil::has_prefix;
use crate::strutil::spec_trim;
use crate::strutil::str_to_chars;
use crate::strutil::trim_chars;
use crate::types::EMPTY_RESPONSE_CODE;
use crate::types::FromQueryString;
use crate::types::QueryError;
use crate::types::QueryResult;
use crate::types::QueryStatus;
use crate::types::TRANSPORT_ERROR_CODE;
use crate::types::status_line_model;
use crate::types::status_line_ok;
use crate::wire::seq_views;
use crate::wire::spec_split;
use crate::wire::split_chars;

verus! {

/// Whether a response line is the status line: after trimming it
/// begins with the status marker.
pub open spec fn is_status_line(l: Seq<char>) -> bool {
    has_prefix(spec_trim(l), "error "@)
}

/// The first status line among the response's lines, trimmed.
pub open spec fn first_status_line(lines: Seq<Seq<char>>) -> Option<Seq<char>>
    decreases lines.len(),
{
    if lines.len() == 0 {
        None
    } else if is_status_line(lines[0]) {
        Some(spec_trim(lines[0]))
    } else {
        first_status_line(lines.skip(1))
    }
}

/// The status line of a whole response, trimmed, if it has one.
pub open spec fn status_of(content: Seq<char>) -> Option<Seq<char>> {
    first_status_line(spec_split(content, '\n'))
}

/// The first result line: not a status line and not blank, trimmed.
pub open spec fn first_data_line(lines: Seq<Seq<char>>) -> Option<Seq<char>>
    decreases lines.len(),
{
    if lines.len() == 0 {
        None
    } else if !is_status_line(lines[0]) && spec_trim(lines[0]).len() > 0 {
        Some(spec_trim(lines[0]))
    } else {
        first_data_line(lines.skip(1))
    }
}

/// The result line of a whole response, trimmed, if it has one.
pub open spec fn data_line_of(content: Seq<char>) -> Option<Seq<char>> {
    first_data_line(spec_split(content, '\n'))
}

/// Whether every `|`-separated row of a result line parses as `T`.
pub open spec fn rows_ok<T: FromQueryString>(line: Seq<char>) -> bool {
    forall|k: int|
        0 <= k < spec_split(line, '|').len() ==> #[trigger] T::row_ok(spec_split(line, '|')[k])
}

/// The records a result line denotes, in order.
pub open spec fn rows_models<T: FromQueryString>(line: Seq<char>) -> Seq<T::V> {
    spec_split(line, '|').map_values(|row: Seq<char>| T::row_model(row))
}

/// Finds and parses the status line of a response. A response with no
/// status line yields the empty-response error; a malformed status
/// line yields a transport-coded error; a non-zero status becomes the
/// error it denotes; on success the content is handed back unchanged.
pub fn decode_status(content: String) -> (r: QueryResult<String>)
    ensures
        status_of(content@) is None ==> r is Err && r->Err_0@.code == EMPTY_RESPONSE_CODE as int,
        status_of(content@) matches Some(l) ==> {
            &&& !status_line_ok(l) ==> r is Err && r->Err_0@.code == TRANSPORT_ERROR_CODE as int
            &&& status_line_ok(l) && status_line_model(l).id == 0 ==> r is Ok && r->Ok_0@
                == content@
            &&& status_line_ok(l) && status_line_model(l).id != 0 ==> r is Err && r->Err_0@.code
                == status_line_model(l).id && r->Err_0@.message == status_line_model(l).msg
        },
{
    let v = str_to_chars(content.as_str());
    let lines = split_chars(v.as_slice(), '\n');
    let n: usize = lines.len();
    let ghost all = spec_split(content@, '\n');
    let prefix = str_to_chars("error ");
    proof {
        reveal_strlit("error ");
        assert(all.skip(0) =~= all);
    }
    let mut i: usize = 0;
    while i < n
        invariant
            i <= n,
            n == all.len(),
            all == spec_split(content@, '\n'),
            seq_views(lines@) == all,
            prefix@ == "error "@,
            first_status_line(all) == first_status_line(all.skip(i as int)),
        decreases n - i,
    {
        let trimmed = trim_chars(lines[i].as_slice());
        proof {
            assert(all.skip(i as int)[0] == all[i as int]);
            assert(all[i as int] == lines@[i as int]@);
            assert(all.skip(i as int).skip(1) =~= all.skip(i as int + 1));
        }
        if chars_has_prefix(trimmed.as_slice(), prefix.as_slice()) {
            proof {
                assert(is_status_line(all[i as int]));
                assert(first_status_line(all.skip(i as int)) == Some(spec_trim(all[i as int])));
            }
            let lstr = chars_to_string(trimmed.as_slice());
            match QueryStatus::from_status_line(lstr.as_str()) {
                Option::None => {
                    return Err(
                        QueryError::from_transport(String::from_str("Malformed status line.")),
                    );
                },
                Option::Some(status) => {
                    if status.id() == 0 {
                        return Ok(content);
                    } else {
                        return Err(status.into_err());
                    }
                },
            }
        }
        i = i + 1;
    }
    proof {
        assert(all.skip(i as int) =~= Seq::<Seq<char>>::empty());
    }
    Err(QueryError::static_empty_response())
}

/// Decodes a response that may carry one result line of typed records.
/// Status handling is as in `decode_status`; then the first non-blank
/// result line, if any, is split on `|` and each row parsed as `T`.
/// A row that does not parse yields a transport-coded error.
pub fn decode_status_with_result<T: FromQueryString>(data: String) -> (r: QueryResult<
    Option<Vec<T>>,
>)
    ensures
        status_of(data@) is None ==> r is Err && r->Err_0@.code == EMPTY_RESPONSE_CODE as int,
        status_of(data@) matches Some(l) ==> {
            &&& !status_line_ok(l) ==> r is Err && r->Err_0@.code == TRANSPORT_ERROR_CODE as int
            &&& status_line_ok(l) && status_line_model(l).id != 0 ==> r is Err && r->Err_0@.code
                == status_line_model(l).id && r->Err_0@.message == status_line_model(l).msg
            &&& status_line_ok(l) && status_line_model(l).id == 0 ==> match data_line_of(data@) {
                Option::None => r is Ok && r->Ok_0 is None,
                Option::Some(dl) => if rows_ok::<T>(dl) {
                    &&& r is Ok
                    &&& r->Ok_0 is Some
                    &&& seq_record_views(r->Ok_0->0@) == rows_models::<T>(dl)
                } else {
                    r is Err && r->Err_0@.code == TRANSPORT_ERROR_CODE as int
                },
            }
        },
{
    let content = match decode_status(data) {
        Ok(c) => c,
        Err(e) => {
            return Err(e);
        },
    };
    let v = str_to_chars(content.as_str());
    let lines = split_chars(v.as_slice(), '\n');
    let n: usize = lines.len();
    let ghost all = spec_split(content@, '\n');
    let prefix = str_to_chars("error ");
    proof {
        reveal_strlit("error ");
        assert(all.skip(0) =~= all);
    }
    let mut i: usize = 0;
    while i < n
        invariant
            i <= n,
            n == all.len(),
            all == spec_split(content@, '\n'),
            content@ == data@,
            seq_views(lines@) == all,
            prefix@ == "error "@,
            first_data_line(all) == first_data_line(all.skip(i as int)),
            status_of(data@) matches Some(sl) && status_line_ok(sl) && status_line_model(sl).id
                == 0,
        decreases n - i,
    {
        let trimmed = trim_chars(lines[i].as_slice());
        proof {
            assert(all.skip(i as int)[0] == all[i as int]);
            assert(all[i as int] == lines@[i as int]@);
            assert(all.skip(i as int).skip(1) =~= all.skip(i as int + 1));
        }
        if !chars_has_prefix(trimmed.as_slice(), prefix.as_slice()) && trimmed.len() > 0 {
            proof {
                assert(first_data_line(all.skip(i as int)) == Some(spec_trim(all[i as int])));
                assert(data_line_of(data@) == Some(spec_trim(all[i as int])));
            }
            let rows = split_chars(trimmed.as_slice(), '|');
            let m: usize = rows.len();
            let ghost dl = spec_trim(all[i as int]);
            let ghost rowseq = spec_split(dl, '|');
            let mut out: Vec<T> = Vec::new();
            let mut k: usize = 0;
            while k < m
                invariant
                    k <= m,
                    m == rowseq.len(),
                    rowseq == spec_split(dl, '|'),
                    seq_views(rows@) == rowseq,
                    out@.len() == k,
                    status_of(data@) matches Some(sl) && status_line_ok(sl)
                        && status_line_model(sl).id == 0,
                    data_line_of(data@) == Some(dl),
                    forall|j: int| 0 <= j < k ==> #[trigger] T::row_ok(rowseq[j]),
                    forall|j: int|
                        0 <= j < k ==> #[trigger] out@[j]@ == T::row_model(rowseq[j]),
                decreases m - k,
            {
                let rstr = chars_to_string(rows[k].as_slice());
                proof {
                    assert(rstr@ == rowseq[k as int]);
                }
                match T::from_query(rstr.as_str()) {
                    Option::Some(rec) => {
                        out.push(rec);
                    },
                    Option::None => {
                        proof {
                            assert(!T::row_ok(rowseq[k as int]));
                            assert(!rows_ok::<T>(dl));
                        }
                        return Err(
                            QueryError::from_transport(
                                String::from_str("Malformed result row."),
                            ),
                        );
                    },
                }
                k = k + 1;
            }
            proof {
                assert(rows_ok::<T>(dl));
                assert(seq_record_views(out@) =~= rows_models::<T>(dl));
            }
            return Ok(Some(out));
        }
        i = i + 1;
    }
    proof {
        assert(all.skip(i as int) =~= Seq::<Seq<char>>::empty());
    }
    Ok(None)
}

/// The views of a vector of parsed records.
pub open spec fn seq_record_views<T: View>(ts: Seq<T>) -> Seq<T::V> {
    ts.map_values(|t: T| t@)
}

/// Decodes a response whose contract guarantees exactly one result
/// row, handing back the first record. A success without any result
/// line is answered with the empty-response error instead.
pub fn decode_single<T: FromQueryString>(data: String) -> (r: QueryResult<T>)
    ensures
        status_of(data@) is None ==> r is Err && r->Err_0@.code == EMPTY_RESPONSE_CODE as int,
        status_of(data@) matches Some(l) ==> {
            &&& status_line_ok(l) && status_line_model(l).id == 0 && (data_line_of(data@)
                matches Some(dl) && rows_ok::<T>(dl)) ==> r is Ok && r->Ok_0@ == rows_models::<T>(
                data_line_of(data@)->0,
            )[0]
            &&& status_line_ok(l) && status_line_model(l).id != 0 ==> r is Err && r->Err_0@.code
                == status_line_model(l).id
            &&& status_line_ok(l) && status_line_model(l).id == 0 && data_line_of(data@) is None
                ==> r is Err && r->Err_0@.code == EMPTY_RESPONSE_CODE as int
        },
{
    let rows = match decode_status_with_result::<T>(data) {
        Ok(rows) => rows,
        Err(e) => {
            return Err(e);
        },
    };
    match rows {
        Option::Some(mut v) => {
            if v.len() == 0 {
                proof {
                    let dl = data_line_of(data@)->0;
                    crate::wire::lemma_split_min_len(dl, '|');
                    assert(rows_models::<T>(dl).len() == spec_split(dl, '|').len());
                    assert(seq_record_views(v@).len() == v@.len());
                    assert(seq_record_views(v@) == rows_models::<T>(dl));
                    assert(false);
                }
                return Err(QueryError::static_empty_response());
            }
            let ghost v0 = v@;
            let first = v.remove(0);
            proof {
                assert(seq_record_views(v0)[0] == v0[0]@);
            }
            Ok(first)
        },
        Option::None => Err(QueryError::static_empty_response()),
    }
}

} // verus!
