//! Cursor pagination of the image listing: a linear scan for the row whose
//! id is the cursor, then a slice of everything strictly after it,
//! truncated to the limit. There is no snapshot guarantee: the page is cut
//! from whatever enumeration the store returned for this request.

use vstd::prelude::*;
use crate::models::Image;
use crate::text::str_eq;

verus! {

/// Whether a row's id is exactly the cursor string.
pub open spec fn spec_id_matches(img: Image, cursor: Seq<char>) -> bool {
    img.id is Some && img.id->0@ == cursor
}

/// The position of the first row whose id is the cursor.
pub open spec fn spec_find_cursor(rows: Seq<Image>, cursor: Seq<char>) -> Option<int>
    decreases rows.len(),
{
    if rows.len() == 0 {
        None
    } else if spec_id_matches(rows[0], cursor) {
        Some(0)
    } else {
        match spec_find_cursor(rows.skip(1), cursor) {
            Some(i) => Some(i + 1),
            None => None,
        }
    }
}

/// The cursor position is the least matching index; `None` means no row
/// matches.
pub proof fn lemma_find_cursor_characterizes(rows: Seq<Image>, cursor: Seq<char>)
    ensures
        match spec_find_cursor(rows, cursor) {
            Some(i) => 0 <= i < rows.len() && spec_id_matches(rows[i], cursor) && (forall|j: int|
                0 <= j < i ==> !spec_id_matches(rows[j], cursor)),
            None => forall|j: int| 0 <= j < rows.len() ==> !spec_id_matches(rows[j], cursor),
        },
    decreases rows.len(),
{
    if rows.len() == 0 {
    } else if spec_id_matches(rows[0], cursor) {
    } else {
        let sub = rows.skip(1);
        lemma_find_cursor_characterizes(sub, cursor);
        match spec_find_cursor(sub, cursor) {
            Some(i) => {
                assert(sub[i] == rows[i + 1]);
                assert forall|j: int| 0 <= j < i + 1 implies !spec_id_matches(
                    rows[j],
                    cursor,
                ) by {
                    if j > 0 {
                        assert(sub[j - 1] == rows[j]);
                    }
                }
            },
            None => {
                assert forall|j: int| 0 <= j < rows.len() implies !spec_id_matches(
                    rows[j],
                    cursor,
                ) by {
                    if j > 0 {
                        assert(sub[j - 1] == rows[j]);
                    }
                }
            },
        }
    }
}

/// The rows strictly after the cursor row: everything, when there is no
/// cursor or no row matches it.
pub open spec fn spec_after_cursor(rows: Seq<Image>, cursor: Option<Seq<char>>) -> Seq<Image> {
    match cursor {
        Some(c) => match spec_find_cursor(rows, c) {
            Some(p) => rows.skip(p + 1),
            None => rows,
        },
        None => rows,
    }
}

/// The page for one request: the rows after the cursor, truncated to the
/// limit.
pub open spec fn spec_page(rows: Seq<Image>, cursor: Option<Seq<char>>, limit: int) -> Seq<Image> {
    let rest = spec_after_cursor(rows, cursor);
    if rest.len() <= limit {
        rest
    } else {
        rest.take(limit)
    }
}

/// Linear scan for the row whose id is the cursor.
pub fn find_cursor(rows: &Vec<Image>, cursor: &String) -> (r: Option<usize>)
    ensures
        match r {
            Some(p) => p < rows@.len() && spec_find_cursor(rows@, cursor@) == Some(p as int),
            None => spec_find_cursor(rows@, cursor@) is None,
        },
{
    proof {
        lemma_find_cursor_characterizes(rows@, cursor@);
    }
    let n = rows.len();
    let mut i: usize = 0;
    while i < n
        invariant
            n == rows@.len(),
            i <= n,
            forall|j: int| 0 <= j < i ==> !spec_id_matches(rows@[j], cursor@),
        decreases n - i,
    {
        let hit = match &rows[i].id {
            Some(id) => str_eq(id, cursor.as_str()),
            None => false,
        };
        if hit {
            proof {
                lemma_find_cursor_characterizes(rows@, cursor@);
            }
            return Some(i);
        }
        i = i + 1;
    }
    None
}

/// Cut the page that follows the cursor out of the fetched rows.
pub fn paginate_images(rows: Vec<Image>, cursor: &Option<String>, limit: usize) -> (out: Vec<
    Image,
>)
    ensures
        out@ == spec_page(
            rows@,
            match cursor {
                Some(c) => Some(c@),
                None => None,
            },
            limit as int,
        ),
{
    let total = rows.len();
    let start: usize = match cursor {
        Some(c) => match find_cursor(&rows, c) {
            Some(p) => {
                proof {
                    assert(p < total);
                }
                p + 1
            },
            None => 0,
        },
        None => 0,
    };
    proof {
        if cursor is Some {
            lemma_find_cursor_characterizes(rows@, cursor->0@);
        }
        assert(spec_after_cursor(
            rows@,
            match cursor {
                Some(c) => Some(c@),
                None => None,
            },
        ) =~= rows@.skip(start as int));
    }
    let n = rows.len();
    let avail = n - start;
    let mut out: Vec<Image> = Vec::new();
    let mut k: usize = 0;
    while k < limit && k < avail
        invariant
            n == rows@.len(),
            start <= n,
            avail == n - start,
            k <= limit,
            k <= avail,
            out@.len() == k,
            forall|j: int| 0 <= j < k ==> out@[j] == rows@[start + j],
        decreases avail - k,
    {
        out.push(rows[start + k].duplicate());
        k = k + 1;
    }
    proof {
        let ghost rest = rows@.skip(start as int);
        if rest.len() <= limit {
            assert(out@ =~= rest);
        } else {
            assert(out@ =~= rest.take(limit as int));
        }
    }
    out
}

} // verus!
