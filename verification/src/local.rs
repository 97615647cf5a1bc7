//! What `component local list` prints: a numbered table of the Wasm files
//! found, in path order, and their count.
use comfy_table::modifiers::UTF8_ROUND_CORNERS;
use comfy_table::presets::UTF8_FULL;
use comfy_table::Table;
use vstd::prelude::*;

use crate::inspect::{lemma_lex_le_total, lemma_lex_le_transitive, lex_le, rows_view};
use crate::text::{decimal, owned, push_str, to_decimal};

verus! {

/// The text of a table drawn by `comfy-table` with rounded UTF-8 borders
/// and no content arrangement, the header `header` and the rows `rows`.
pub uninterp spec fn rounded_table_text(header: Seq<Seq<char>>, rows: Seq<Seq<Seq<char>>>) -> Seq<char>;

/// Draw a table with `comfy-table`: the `UTF8_FULL` preset with rounded
/// corners, no content arrangement (`Table::to_string`).
///
/// The text is named by `rounded_table_text`: without arrangement and with
/// no styled cell, the crate's source draws it from the arguments alone.
#[verifier::external_body]
fn render_rounded_table(header: &Vec<String>, rows: &Vec<Vec<String>>) -> (s: String)
    ensures
        s@ == rounded_table_text(header@.map_values(|h: String| h@), rows_view(rows@)),
{
    let mut table = Table::new();
    table.load_preset(UTF8_FULL).apply_modifier(UTF8_ROUND_CORNERS);
    table.set_header(header.clone());
    for row in rows {
        table.add_row(row.clone());
    }
    table.to_string()
}

/// A file name of portable characters (ASCII letters, digits, `_`, `-` and
/// `.`), other than `.` and `..`: on every platform `Path` reads it as one
/// normal component, since it holds no separator, no drive prefix and is
/// no special directory name.
pub open spec fn plain_name(t: Seq<char>) -> bool {
    &&& t.len() > 0
    &&& t != "."@
    &&& t != ".."@
    &&& forall|i: int|
        0 <= i < t.len() ==> {
            let c = #[trigger] t[i];
            ||| ('a' <= c && c <= 'z')
            ||| ('A' <= c && c <= 'Z')
            ||| ('0' <= c && c <= '9')
            ||| c == '_'
            ||| c == '-'
            ||| c == '.'
        }
}

/// `std::path::Path::new(a) <= std::path::Path::new(b)`.
///
/// How `Path` splits and orders paths in general depends on the platform,
/// so the result is stated only for two plain file names: each is a single
/// normal component, and `Path` orders paths by their components, a
/// normal component by its bytes; for these ASCII names that is the order
/// of their characters, a prefix first. Of other paths nothing is stated.
#[verifier::external_body]
fn path_le(a: &str, b: &str) -> (r: bool)
    ensures
        plain_name(a@) && plain_name(b@) ==> r == lex_le(a@, b@),
{
    std::path::Path::new(a) <= std::path::Path::new(b)
}

/// The header of the file table.
pub open spec fn list_header() -> Seq<Seq<char>> {
    seq!["#"@, "File Path"@]
}

/// The rows of the file table: each file's number, counting from 1, and
/// its path.
pub open spec fn list_rows(files: Seq<String>) -> Seq<Seq<Seq<char>>> {
    Seq::new(files.len(), |i: int| seq![decimal((i + 1) as nat), files[i]@])
}

/// What `local list` prints for the files `files` found in `dir`, in that
/// order: a note when there are none, else the numbered table and a count.
pub open spec fn files_text(dir: Seq<char>, files: Seq<String>) -> Seq<char> {
    if files.len() == 0 {
        "No WASM files found in "@ + dir + "\n"@
    } else {
        rounded_table_text(list_header(), list_rows(files)) + "\n\nFound "@ + decimal(
            files.len() as nat,
        ) + " WASM file(s)\n"@
    }
}

/// What `local list` prints for the files `files` found in `dir`, listed
/// in the order given.
pub fn listed_files_text(dir: &str, files: &Vec<String>) -> (s: String)
    ensures
        s@ == files_text(dir@, files@),
{
    if files.len() == 0 {
        let mut s = owned("No WASM files found in ");
        push_str(&mut s, dir);
        push_str(&mut s, "\n");
        return s;
    }
    let header = vec![owned("#"), owned("File Path")];
    assert(header@.map_values(|h: String| h@) =~= list_header());
    let mut rows: Vec<Vec<String>> = Vec::new();
    let mut i: usize = 0;
    while i < files.len()
        invariant
            i <= files.len(),
            rows_view(rows@) == list_rows(files@).take(i as int),
        decreases files.len() - i,
    {
        let number = to_decimal((i + 1) as u64);
        let path = files[i].clone();
        let row = vec![number, path];
        assert(row@.map_values(|c: String| c@) =~= seq![decimal((i + 1) as nat), files@[i as int]@]);
        let ghost before = rows@;
        rows.push(row);
        assert(rows_view(rows@) =~= rows_view(before).push(seq![decimal((i + 1) as nat), files@[i as int]@]));
        assert(list_rows(files@).take(i + 1) =~= list_rows(files@).take(i as int).push(list_rows(files@)[i as int]));
        i = i + 1;
    }
    assert(list_rows(files@).take(i as int) =~= list_rows(files@));
    let mut s = render_rounded_table(&header, &rows);
    push_str(&mut s, "\n\nFound ");
    let count = to_decimal(files.len() as u64);
    push_str(&mut s, count.as_str());
    push_str(&mut s, " WASM file(s)\n");
    s
}

/// `order` lists each index below `n` exactly once.
pub open spec fn is_order(order: Seq<usize>, n: nat) -> bool {
    &&& order.len() == n
    &&& forall|k: int| 0 <= k < order.len() ==> order[k] < n
    &&& forall|k: int, l: int| 0 <= k < l < order.len() ==> order[k] != order[l]
    &&& forall|x: usize| x < n ==> #[trigger] order.contains(x)
}

/// The files of `files` in the order `order`.
pub open spec fn arranged(files: Seq<String>, order: Seq<usize>) -> Seq<String> {
    order.map_values(|i: usize| files[i as int])
}

/// Every file of `files` is a plain file name.
pub open spec fn all_plain(files: Seq<String>) -> bool {
    forall|i: int| 0 <= i < files.len() ==> plain_name(#[trigger] files[i]@)
}

/// `names` are in the order of their characters, a prefix first.
pub open spec fn names_sorted(names: Seq<String>) -> bool {
    forall|k: int, l: int| 0 <= k < l < names.len() ==> lex_le(#[trigger] names[k]@, #[trigger] names[l]@)
}

/// The indices `order` list `files` sorted.
pub open spec fn sorted_by_name(files: Seq<String>, order: Seq<usize>) -> bool {
    forall|k: int, l: int|
        0 <= k < l < order.len() ==> lex_le(
            #[trigger] files[order[k] as int]@,
            #[trigger] files[order[l] as int]@,
        )
}

/// Indices of `files` sorted by `Path` order (insertion sort); for plain
/// file names, the order of their characters.
fn path_order(files: &Vec<String>) -> (order: Vec<usize>)
    ensures
        is_order(order@, files.len() as nat),
        all_plain(files@) ==> sorted_by_name(files@, order@),
{
    let mut order: Vec<usize> = Vec::new();
    let mut j: usize = 0;
    while j < files.len()
        invariant
            j <= files.len(),
            is_order(order@, j as nat),
            all_plain(files@) ==> sorted_by_name(files@, order@),
        decreases files.len() - j,
    {
        let mut pos: usize = 0;
        while pos < order.len() && path_le(files[order[pos]].as_str(), files[j].as_str())
            invariant
                pos <= order.len(),
                j < files.len(),
                is_order(order@, j as nat),
                all_plain(files@) ==> forall|k: int|
                    0 <= k < pos ==> lex_le(#[trigger] files@[order@[k] as int]@, files@[j as int]@),
            decreases order.len() - pos,
        {
            proof {
                if all_plain(files@) {
                    assert(plain_name(files@[order@[pos as int] as int]@));
                    assert(plain_name(files@[j as int]@));
                }
            }
            pos = pos + 1;
        }
        proof {
            if all_plain(files@) && pos < order.len() {
                let y0 = order@[pos as int];
                let nj = files@[j as int]@;
                assert(plain_name(files@[y0 as int]@));
                assert(plain_name(nj));
                assert(!lex_le(files@[y0 as int]@, nj));
                lemma_lex_le_total(files@[y0 as int]@, nj);
                assert forall|l: int| pos <= l < order.len() implies lex_le(
                    nj,
                    #[trigger] files@[order@[l] as int]@,
                ) by {
                    if l > pos {
                        assert(lex_le(files@[order@[pos as int] as int]@, files@[order@[l] as int]@));
                        lemma_lex_le_transitive(nj, files@[y0 as int]@, files@[order@[l] as int]@);
                    }
                }
            }
        }
        let ghost old_order = order@;
        order.insert(pos, j);
        proof {
            if all_plain(files@) {
                assert forall|k: int, l: int| 0 <= k < l < order.len() implies lex_le(
                    #[trigger] files@[order@[k] as int]@,
                    #[trigger] files@[order@[l] as int]@,
                ) by {
                    if k < pos && l < pos {
                        assert(order@[k] == old_order[k] && order@[l] == old_order[l]);
                    } else if k < pos && l == pos {
                        assert(order@[k] == old_order[k] && order@[l] == j);
                    } else if k < pos {
                        assert(order@[k] == old_order[k] && order@[l] == old_order[l - 1]);
                    } else if k == pos {
                        assert(order@[k] == j && order@[l] == old_order[l - 1]);
                    } else {
                        assert(order@[k] == old_order[k - 1] && order@[l] == old_order[l - 1]);
                    }
                }
            }
        }
        assert forall|k: int, l: int| 0 <= k < l < order.len() implies order[k] != order[l] by {
            if k < pos && l < pos {
                assert(order[k] == old_order[k] && order[l] == old_order[l]);
            } else if k < pos && l == pos {
                assert(order[k] == old_order[k]);
            } else if k < pos {
                assert(order[k] == old_order[k] && order[l] == old_order[l - 1]);
            } else if k == pos {
                assert(order[l] == old_order[l - 1]);
            } else {
                assert(order[k] == old_order[k - 1] && order[l] == old_order[l - 1]);
            }
        }
        assert forall|k: int| 0 <= k < order.len() implies order[k] < j + 1 by {
            if k < pos {
                assert(order[k] == old_order[k]);
            } else if k > pos {
                assert(order[k] == old_order[k - 1]);
            }
        }
        assert forall|x: usize| x < j + 1 implies #[trigger] order@.contains(x) by {
            if x == j {
                assert(order[pos as int] == j);
            } else {
                assert(old_order.contains(x));
                let k0 = choose|k: int| 0 <= k < old_order.len() && old_order[k] == x;
                if k0 < pos {
                    assert(order[k0] == x);
                } else {
                    assert(order[k0 + 1] == x);
                }
            }
        }
        j = j + 1;
    }
    order
}

/// What `local list` prints for the Wasm files `files` found in `dir`: a
/// note when there are none, else the numbered table of the files sorted
/// by path and their count. Every file is listed exactly once, in `Path`
/// order; for plain file names that is the order of their characters (in
/// general it depends on the platform and is not stated).
pub fn wasm_list_text(dir: &str, files: &Vec<String>) -> (s: String)
    ensures
        files.len() == 0 ==> s@ == files_text(dir@, files@),
        exists|order: Seq<usize>|
            #[trigger] is_order(order, files.len() as nat) && (all_plain(files@) ==> names_sorted(
                arranged(files@, order),
            )) && s@ == files_text(dir@, arranged(files@, order)),
{
    let order = path_order(files);
    let mut sorted: Vec<String> = Vec::new();
    let mut k: usize = 0;
    while k < order.len()
        invariant
            k <= order.len(),
            is_order(order@, files.len() as nat),
            sorted@ == arranged(files@, order@.take(k as int)),
        decreases order.len() - k,
    {
        sorted.push(files[order[k]].clone());
        assert(arranged(files@, order@.take(k + 1)) =~= arranged(files@, order@.take(k as int)).push(
            files@[order@[k as int] as int],
        ));
        k = k + 1;
    }
    assert(order@.take(k as int) =~= order@);
    proof {
        if files.len() == 0 {
            assert(arranged(files@, order@) =~= files@);
        }
        if all_plain(files@) {
            let a = arranged(files@, order@);
            assert forall|k: int, l: int| 0 <= k < l < a.len() implies lex_le(
                #[trigger] a[k]@,
                #[trigger] a[l]@,
            ) by {
                assert(a[k] == files@[order@[k] as int]);
                assert(a[l] == files@[order@[l] as int]);
            }
        }
    }
    listed_files_text(dir, &sorted)
}

} // verus!
