//! Reading items from a delimited text file: the brace-aware comma mask, the
//! file-name test, the field parsers and the record-to-item mapping.

use crate::data_types::{EntityId, ItemPrice, text};
use crate::choice_groups::ChoiceGroup;
use crate::entity_component::{Entity, spec_is_default_with};
use crate::item_groups::ItemGroup;
use crate::items::{Item, ItemModel, items_model, opt_text};
use crate::price_levels::PriceLevel;
use crate::printer_logicals::PrinterLogical;
use crate::product_classes::ProductClass;
use crate::report_categories::ReportCategory;
use crate::revenue_categories::RevenueCategory;
use crate::security_levels::SecurityLevel;
use crate::tax_groups::TaxGroup;
use crate::text::{int_string, push_str, spec_int_text};
use std::collections::BTreeMap;
use vstd::std_specs::iter::IteratorSpec;
use crate::money::{Amount, parse_amount, spec_parse};
use crate::text::{
    chars_of, is_blank, parse_i32, push_char, remove_char, replace_pair, spec_is_blank,
    spec_parse_i32, spec_remove_char, spec_replace_pair, spec_split, spec_trim,
    spec_trim_end_char, spec_trim_start_char, split, string_of, text_is, trim, trim_end_char,
    trim_start_char,
};
use vstd::prelude::*;

verus! {

broadcast use vstd::laws_cmp::group_laws_cmp;

/// The character that stands for a comma inside braces while a file is read.
pub const UNIT_SEPARATOR: char = '\u{241F}';

// ---------------------------------------------------------------------
// Masking commas inside braces
// ---------------------------------------------------------------------

/// Whether the scan is inside braces after reading `c`.
pub open spec fn spec_next_inside(c: char, inside: bool) -> bool {
    if c == '{' {
        true
    } else if c == '}' {
        false
    } else {
        inside
    }
}

/// What the mask writes for `c`: a comma inside braces becomes the unit
/// separator, every other character stays.
pub open spec fn spec_mask_char(c: char, inside: bool) -> char {
    if c == ',' && inside {
        UNIT_SEPARATOR
    } else {
        c
    }
}

/// The masked text of `s`, the scan starting inside braces or not.
pub open spec fn spec_mask_from(s: Seq<char>, inside: bool) -> Seq<char>
    decreases s.len(),
{
    if s.len() == 0 {
        Seq::empty()
    } else {
        seq![spec_mask_char(s[0], inside)] + spec_mask_from(
            s.drop_first(),
            spec_next_inside(s[0], inside),
        )
    }
}

/// `s` with every comma between `{` and the next `}` replaced by the unit
/// separator.
pub open spec fn spec_mask_braced_commas(s: Seq<char>) -> Seq<char> {
    spec_mask_from(s, false)
}

/// What the unmask writes for `c`: braces are dropped, a unit separator
/// inside braces becomes a comma, every other character stays.
pub open spec fn spec_unmask_out(c: char, inside: bool) -> Seq<char> {
    if c == '{' || c == '}' {
        Seq::empty()
    } else if c == UNIT_SEPARATOR && inside {
        seq![',']
    } else {
        seq![c]
    }
}

/// The unmasked text of `s`, the scan starting inside braces or not.
pub open spec fn spec_unmask_from(s: Seq<char>, inside: bool) -> Seq<char>
    decreases s.len(),
{
    if s.len() == 0 {
        Seq::empty()
    } else {
        spec_unmask_out(s[0], inside) + spec_unmask_from(
            s.drop_first(),
            spec_next_inside(s[0], inside),
        )
    }
}

/// `s` without its braces, with every unit separator between braces turned
/// back into a comma.
pub open spec fn spec_unmask_braced_commas(s: Seq<char>) -> Seq<char> {
    spec_unmask_from(s, false)
}

/// `s` without its braces.
pub open spec fn spec_strip_braces(s: Seq<char>) -> Seq<char>
    decreases s.len(),
{
    if s.len() == 0 {
        Seq::empty()
    } else if s[0] == '{' || s[0] == '}' {
        spec_strip_braces(s.drop_first())
    } else {
        seq![s[0]] + spec_strip_braces(s.drop_first())
    }
}

proof fn lemma_mask_step(s: Seq<char>, i: int, inside: bool)
    requires
        0 <= i < s.len(),
    ensures
        spec_mask_from(s.skip(i), inside) == seq![spec_mask_char(s[i], inside)] + spec_mask_from(
            s.skip(i + 1),
            spec_next_inside(s[i], inside),
        ),
        spec_unmask_from(s.skip(i), inside) == spec_unmask_out(s[i], inside) + spec_unmask_from(
            s.skip(i + 1),
            spec_next_inside(s[i], inside),
        ),
{
    assert(s.skip(i).drop_first() =~= s.skip(i + 1));
    assert(s.skip(i)[0] == s[i]);
}

/// Replaces every comma between `{` and the next `}` by the unit separator,
/// so that a record splitter does not cut there.
pub fn mask_braced_commas(s: &str) -> (r: String)
    ensures
        r@ == spec_mask_braced_commas(s@),
{
    let v = chars_of(s);
    let mut result = String::new();
    let mut inside_braces = false;
    let mut i: usize = 0;
    proof {
        assert(v@.skip(0) =~= v@);
        assert(result@ + spec_mask_from(v@, false) =~= spec_mask_from(v@, false));
    }
    while i < v.len()
        invariant
            i <= v@.len(),
            v@ == s@,
            result@ + spec_mask_from(v@.skip(i as int), inside_braces) == spec_mask_from(
                v@,
                false,
            ),
        decreases v.len() - i,
    {
        let c = v[i];
        proof {
            lemma_mask_step(v@, i as int, inside_braces);
        }
        let ghost prev = result@;
        let ghost was = inside_braces;
        if c == '{' {
            inside_braces = true;
            push_char(&mut result, c);
        } else if c == '}' {
            inside_braces = false;
            push_char(&mut result, c);
        } else if c == ',' && inside_braces {
            push_char(&mut result, UNIT_SEPARATOR);
        } else {
            push_char(&mut result, c);
        }
        i += 1;
        proof {
            assert(inside_braces == spec_next_inside(c, was));
            assert(result@ == prev.push(spec_mask_char(c, was)));
            assert(result@ + spec_mask_from(v@.skip(i as int), inside_braces) =~= prev + (seq![
                spec_mask_char(c, was)] + spec_mask_from(v@.skip(i as int), inside_braces)));
        }
    }
    proof {
        assert(v@.skip(i as int) =~= Seq::<char>::empty());
        assert(result@ + Seq::<char>::empty() =~= result@);
    }
    result
}

/// Drops the braces and turns every unit separator between braces back into
/// a comma.
pub fn unmask_braced_commas(s: &str) -> (r: String)
    ensures
        r@ == spec_unmask_braced_commas(s@),
{
    let v = chars_of(s);
    let mut result = String::new();
    let mut inside_braces = false;
    let mut i: usize = 0;
    proof {
        assert(v@.skip(0) =~= v@);
        assert(result@ + spec_unmask_from(v@, false) =~= spec_unmask_from(v@, false));
    }
    while i < v.len()
        invariant
            i <= v@.len(),
            v@ == s@,
            result@ + spec_unmask_from(v@.skip(i as int), inside_braces) == spec_unmask_from(
                v@,
                false,
            ),
        decreases v.len() - i,
    {
        let c = v[i];
        proof {
            lemma_mask_step(v@, i as int, inside_braces);
        }
        let ghost prev = result@;
        let ghost was = inside_braces;
        if c == '{' {
            inside_braces = true;
        } else if c == '}' {
            inside_braces = false;
        } else if c == UNIT_SEPARATOR && inside_braces {
            push_char(&mut result, ',');
        } else {
            push_char(&mut result, c);
        }
        i += 1;
        proof {
            assert(inside_braces == spec_next_inside(c, was));
            assert(result@ == prev + spec_unmask_out(c, was));
            assert(result@ + spec_unmask_from(v@.skip(i as int), inside_braces) =~= prev + (
            spec_unmask_out(c, was) + spec_unmask_from(v@.skip(i as int), inside_braces)));
        }
    }
    proof {
        assert(v@.skip(i as int) =~= Seq::<char>::empty());
        assert(result@ + Seq::<char>::empty() =~= result@);
    }
    result
}

proof fn lemma_unmask_mask_from(s: Seq<char>, inside: bool)
    requires
        !s.contains(UNIT_SEPARATOR),
    ensures
        spec_unmask_from(spec_mask_from(s, inside), inside) == spec_strip_braces(s),
    decreases s.len(),
{
    if s.len() > 0 {
        let c = s[0];
        let rest = s.drop_first();
        assert(!rest.contains(UNIT_SEPARATOR)) by {
            if rest.contains(UNIT_SEPARATOR) {
                let j = choose|j: int| 0 <= j < rest.len() && rest[j] == UNIT_SEPARATOR;
                assert(s[j + 1] == UNIT_SEPARATOR);
            }
        }
        assert(c != UNIT_SEPARATOR) by {
            assert(s[0] == c);
        }
        lemma_unmask_mask_from(rest, spec_next_inside(c, inside));
        let m = spec_mask_from(s, inside);
        let mrest = spec_mask_from(rest, spec_next_inside(c, inside));
        assert(m == seq![spec_mask_char(c, inside)] + mrest);
        assert(m[0] == spec_mask_char(c, inside));
        assert(m.drop_first() =~= mrest);
        assert(spec_next_inside(spec_mask_char(c, inside), inside) == spec_next_inside(c, inside));
        if c == '{' || c == '}' {
            assert(spec_unmask_out(spec_mask_char(c, inside), inside) =~= Seq::<char>::empty());
            assert(spec_unmask_from(m, inside) =~= spec_unmask_from(mrest, spec_next_inside(c, inside)));
        } else {
            assert(spec_unmask_out(spec_mask_char(c, inside), inside) =~= seq![c]);
        }
    }
}

/// Unmasking a masked text gives the text back without its braces, for any
/// text that holds no unit separator of its own.
pub proof fn lemma_unmask_after_mask(s: Seq<char>)
    requires
        !s.contains(UNIT_SEPARATOR),
    ensures
        spec_unmask_braced_commas(spec_mask_braced_commas(s)) == spec_strip_braces(s),
{
    lemma_unmask_mask_from(s, false);
}

proof fn lemma_mask_len(s: Seq<char>, inside: bool)
    ensures
        spec_mask_from(s, inside).len() == s.len(),
    decreases s.len(),
{
    if s.len() > 0 {
        lemma_mask_len(s.drop_first(), spec_next_inside(s[0], inside));
    }
}

/// Masking keeps the length of a text: every character is written once.
pub proof fn lemma_mask_keeps_length(s: Seq<char>)
    ensures
        spec_mask_braced_commas(s).len() == s.len(),
{
    lemma_mask_len(s, false);
}

// ---------------------------------------------------------------------
// File names
// ---------------------------------------------------------------------

/// Whether a piece of a path is a component that can be a file name: not
/// empty and not the current directory.
pub open spec fn spec_keeps_part(p: Seq<char>) -> bool {
    p.len() > 0 && p != seq!['.']
}

/// The last component of the pieces, if any.
pub open spec fn spec_last_part(parts: Seq<Seq<char>>) -> Option<Seq<char>>
    decreases parts.len(),
{
    if parts.len() == 0 {
        None
    } else if spec_keeps_part(parts.last()) {
        Some(parts.last())
    } else {
        spec_last_part(parts.drop_last())
    }
}

/// The file name of a path text (`Path::file_name`): its last component,
/// none when there is none or when it is `..`.
pub open spec fn spec_file_name(path: Seq<char>) -> Option<Seq<char>> {
    match spec_last_part(spec_split(path, '/')) {
        Some(p) => if p == seq!['.', '.'] {
            None
        } else {
            Some(p)
        },
        None => None,
    }
}

/// The index of the last occurrence of `c` in `s`, if any.
pub open spec fn spec_last_index(s: Seq<char>, c: char) -> Option<int>
    decreases s.len(),
{
    if s.len() == 0 {
        None
    } else if s.last() == c {
        Some(s.len() - 1)
    } else {
        spec_last_index(s.drop_last(), c)
    }
}

/// The extension of a path text (`Path::extension`): what follows the last
/// `.` of the file name, none when the name has no `.` or only a leading one.
pub open spec fn spec_extension(path: Seq<char>) -> Option<Seq<char>> {
    match spec_file_name(path) {
        Some(name) => match spec_last_index(name, '.') {
            Some(i) => if i == 0 {
                None
            } else {
                Some(name.skip(i + 1))
            },
            None => None,
        },
        None => None,
    }
}

/// The file name of a path text.
pub fn file_name(path: &str) -> (r: Option<Vec<char>>)
    ensures
        match r {
            Some(v) => spec_file_name(path@) == Some(v@),
            None => spec_file_name(path@) is None,
        },
{
    let v = chars_of(path);
    let parts = split(v.as_slice(), '/');
    let ghost ps = spec_split(path@, '/');
    let mut k: usize = parts.len();
    proof {
        assert(ps.take(ps.len() as int) =~= ps);
    }
    while k > 0 && !(parts[k - 1].len() > 0 && !text_is(parts[k - 1].as_slice(), "."))
        invariant
            k <= parts@.len(),
            parts@.len() == ps.len(),
            forall|j: int| 0 <= j < parts@.len() ==> #[trigger] parts@[j]@ == ps[j],
            spec_last_part(ps) == spec_last_part(ps.take(k as int)),
        decreases k,
    {
        proof {
            reveal_strlit(".");
            assert("."@ =~= seq!['.']);
            assert(ps.take(k as int).last() == ps[k - 1]);
            assert(!spec_keeps_part(ps[k - 1]));
            assert(ps.take(k as int).drop_last() =~= ps.take(k - 1));
        }
        k -= 1;
    }
    if k == 0 {
        return None;
    }
    proof {
        reveal_strlit(".");
        assert("."@ =~= seq!['.']);
        assert(ps.take(k as int).last() == ps[k - 1]);
        assert(spec_keeps_part(ps[k - 1]));
        assert(spec_last_part(ps) == Some(ps[k - 1]));
    }
    let last = &parts[k - 1];
    if text_is(last.as_slice(), "..") {
        proof {
            reveal_strlit("..");
            assert(".."@ =~= seq!['.', '.']);
        }
        return None;
    }
    proof {
        reveal_strlit("..");
        assert(".."@ =~= seq!['.', '.']);
    }
    let mut out: Vec<char> = Vec::new();
    let mut j: usize = 0;
    while j < last.len()
        invariant
            j <= last@.len(),
            out@ == last@.subrange(0, j as int),
        decreases last.len() - j,
    {
        out.push(last[j]);
        j += 1;
        proof {
            assert(out@ =~= last@.subrange(0, j as int));
        }
    }
    proof {
        assert(out@ =~= last@);
    }
    Some(out)
}

/// The extension of a path text.
pub fn extension(path: &str) -> (r: Option<Vec<char>>)
    ensures
        match r {
            Some(v) => spec_extension(path@) == Some(v@),
            None => spec_extension(path@) is None,
        },
{
    let name = match file_name(path) {
        Some(n) => n,
        None => return None,
    };
    let mut k: usize = name.len();
    proof {
        assert(name@.take(name@.len() as int) =~= name@);
    }
    while k > 0 && name[k - 1] != '.'
        invariant
            k <= name@.len(),
            spec_last_index(name@, '.') == spec_last_index(name@.take(k as int), '.'),
        decreases k,
    {
        proof {
            assert(name@.take(k as int).drop_last() =~= name@.take(k - 1));
        }
        k -= 1;
    }
    if k == 0 {
        return None;
    }
    if k == 1 {
        return None;
    }
    let mut out: Vec<char> = Vec::new();
    let mut j: usize = k;
    while j < name.len()
        invariant
            k <= j <= name@.len(),
            out@ == name@.subrange(k as int, j as int),
        decreases name.len() - j,
    {
        out.push(name[j]);
        j += 1;
        proof {
            assert(out@ =~= name@.subrange(k as int, j as int));
        }
    }
    proof {
        assert(out@ =~= name@.skip(k as int));
    }
    Some(out)
}

/// Whether the file a path names can be imported: its extension is `csv` or
/// `txt`.
pub open spec fn spec_is_csv_or_txt(path: Seq<char>) -> bool {
    match spec_extension(path) {
        Some(e) => e == "csv"@ || e == "txt"@,
        None => false,
    }
}

/// Whether the path names a `.csv` or `.txt` file.
pub fn is_csv_or_txt(path: &str) -> (r: bool)
    ensures
        r == spec_is_csv_or_txt(path@),
{
    match extension(path) {
        Some(e) => text_is(e.as_slice(), "csv") || text_is(e.as_slice(), "txt"),
        None => false,
    }
}

// ---------------------------------------------------------------------
// Field parsers
// ---------------------------------------------------------------------

/// An optional id: none for a blank field, else the field read as an
/// integer (none if it is not one).
pub open spec fn spec_parse_entity_id(s: Seq<char>) -> Option<EntityId> {
    if spec_is_blank(s) {
        None
    } else {
        spec_parse_i32(s)
    }
}

/// Reads an optional id field.
pub fn parse_entity_id(s: &str) -> (r: Option<EntityId>)
    ensures
        r == spec_parse_entity_id(s@),
{
    let v = chars_of(s);
    if is_blank(v.as_slice()) {
        None
    } else {
        parse_i32(v.as_slice())
    }
}

/// The integers among the trimmed pieces, in order; pieces that are not
/// integers are skipped.
pub open spec fn spec_parsed_ints(pieces: Seq<Seq<char>>) -> Seq<i32>
    decreases pieces.len(),
{
    if pieces.len() == 0 {
        Seq::empty()
    } else {
        let r = spec_parsed_ints(pieces.drop_last());
        match spec_parse_i32(spec_trim(pieces.last())) {
            Some(n) => r.push(n),
            None => r,
        }
    }
}

fn parse_each_int(pieces: &Vec<Vec<char>>, Ghost(ps): Ghost<Seq<Seq<char>>>) -> (r: Vec<i32>)
    requires
        pieces@.len() == ps.len(),
        forall|k: int| 0 <= k < ps.len() ==> #[trigger] pieces@[k]@ == ps[k],
    ensures
        r@ == spec_parsed_ints(ps),
{
    let mut r: Vec<i32> = Vec::new();
    let mut i: usize = 0;
    while i < pieces.len()
        invariant
            i <= ps.len(),
            pieces@.len() == ps.len(),
            forall|k: int| 0 <= k < ps.len() ==> #[trigger] pieces@[k]@ == ps[k],
            r@ == spec_parsed_ints(ps.take(i as int)),
        decreases pieces.len() - i,
    {
        proof {
            assert(ps.take(i + 1).drop_last() =~= ps.take(i as int));
            assert(ps.take(i + 1).last() == ps[i as int]);
            assert(pieces@[i as int]@ == ps[i as int]);
        }
        let t = trim(pieces[i].as_slice());
        match parse_i32(t.as_slice()) {
            Some(n) => r.push(n),
            None => {},
        }
        i += 1;
    }
    proof {
        assert(ps.take(ps.len() as int) =~= ps);
    }
    r
}

/// A list of ids: none for a blank field, else the integers among the
/// comma-separated pieces (none if there are none).
pub open spec fn spec_parse_entity_ids(s: Seq<char>) -> Option<Seq<EntityId>> {
    if spec_is_blank(s) {
        None
    } else {
        let ids = spec_parsed_ints(spec_split(s, ','));
        if ids.len() == 0 {
            None
        } else {
            Some(ids)
        }
    }
}

/// Reads a comma-separated list of ids.
pub fn parse_entity_ids(s: &str) -> (r: Option<Vec<EntityId>>)
    ensures
        match r {
            Some(v) => spec_parse_entity_ids(s@) == Some(v@),
            None => spec_parse_entity_ids(s@) is None,
        },
{
    let v = chars_of(s);
    if is_blank(v.as_slice()) {
        return None;
    }
    let pieces = split(v.as_slice(), ',');
    let ids = parse_each_int(&pieces, Ghost(spec_split(s@, ',')));
    if ids.len() == 0 {
        None
    } else {
        Some(ids)
    }
}

/// The texts read as true: `1`, `Y`, `YES`, `TRUE`, `true`, `yes`, `y`.
pub open spec fn spec_is_true_text(t: Seq<char>) -> bool {
    ||| t == "1"@
    ||| t == "Y"@
    ||| t == "YES"@
    ||| t == "TRUE"@
    ||| t == "true"@
    ||| t == "yes"@
    ||| t == "y"@
}

/// A flag field: true when the trimmed field is one of the true texts.
pub open spec fn spec_parse_bool(s: Seq<char>) -> bool {
    spec_is_true_text(spec_trim(s))
}

/// Reads a flag field.
pub fn parse_bool(s: &str) -> (r: bool)
    ensures
        r == spec_parse_bool(s@),
{
    let v = chars_of(s);
    let t = trim(v.as_slice());
    let t = t.as_slice();
    text_is(t, "1") || text_is(t, "Y") || text_is(t, "YES") || text_is(t, "TRUE") || text_is(
        t,
        "true",
    ) || text_is(t, "yes") || text_is(t, "y")
}

/// The zero amount.
pub open spec fn spec_zero_amount() -> Amount {
    Amount { mantissa: 0, scale: 0 }
}

/// A decimal field: the decimal it holds, zero when it holds none.
pub open spec fn spec_parse_decimal(s: Seq<char>) -> Amount {
    match spec_parse(s) {
        Some(a) => a,
        None => spec_zero_amount(),
    }
}

/// Reads a decimal field, zero when it is not a decimal.
pub fn parse_decimal(s: &str) -> (r: Amount)
    ensures
        r == spec_parse_decimal(s@),
        r.wf(),
{
    match parse_amount(s) {
        Some(a) => a,
        None => Amount::zero(),
    }
}

/// An optional decimal field: none when blank or not a decimal.
pub open spec fn spec_parse_optional_decimal(s: Seq<char>) -> Option<Amount> {
    if spec_is_blank(s) {
        None
    } else {
        spec_parse(s)
    }
}

/// Reads an optional decimal field.
pub fn parse_optional_decimal(s: &str) -> (r: Option<Amount>)
    ensures
        r == spec_parse_optional_decimal(s@),
        r matches Some(a) ==> a.wf(),
{
    let v = chars_of(s);
    if is_blank(v.as_slice()) {
        None
    } else {
        parse_amount(s)
    }
}

/// An integer field: the integer it holds, zero when it holds none.
pub open spec fn spec_parse_int_or_zero(s: Seq<char>) -> i32 {
    match spec_parse_i32(s) {
        Some(n) => n,
        None => 0,
    }
}

/// Reads an integer field, zero when it is not an integer.
pub fn parse_int_or_zero(s: &str) -> (r: i32)
    ensures
        r == spec_parse_int_or_zero(s@),
{
    let v = chars_of(s);
    match parse_i32(v.as_slice()) {
        Some(n) => n,
        None => 0,
    }
}

/// An optional text field: none when blank, else the field as it stands.
pub open spec fn spec_string_or_none(s: Seq<char>) -> Option<Seq<char>> {
    if spec_is_blank(s) {
        None
    } else {
        Some(s)
    }
}

/// Reads an optional text field.
pub fn string_or_none(s: &str) -> (r: Option<String>)
    ensures
        match r {
            Some(t) => spec_string_or_none(s@) == Some(t@),
            None => spec_string_or_none(s@) is None,
        },
{
    let v = chars_of(s);
    if is_blank(v.as_slice()) {
        None
    } else {
        Some(string_of(v.as_slice()))
    }
}

// ---------------------------------------------------------------------
// Prices, choice groups and kitchen printers
// ---------------------------------------------------------------------

/// One `level:price` entry: the trimmed level read as an integer and the
/// trimmed price read as a decimal; none unless the entry has exactly one
/// `:` and both parts read.
pub open spec fn spec_price_entry(e: Seq<char>) -> Option<ItemPrice> {
    let parts = spec_split(e, ':');
    if parts.len() == 2 {
        match (spec_parse_i32(spec_trim(parts[0])), spec_parse(spec_trim(parts[1]))) {
            (Some(id), Some(p)) => Some(ItemPrice { price_level_id: id, price: p }),
            _ => None,
        }
    } else {
        None
    }
}

/// The prices read from the entries, in order; entries that do not read
/// are skipped.
pub open spec fn spec_price_entries(entries: Seq<Seq<char>>) -> Seq<ItemPrice>
    decreases entries.len(),
{
    if entries.len() == 0 {
        Seq::empty()
    } else {
        let r = spec_price_entries(entries.drop_last());
        match spec_price_entry(entries.last()) {
            Some(p) => r.push(p),
            None => r,
        }
    }
}

/// The price field with `␟$` turned into `:` and the braces removed.
pub open spec fn spec_price_text(s: Seq<char>) -> Seq<char> {
    spec_remove_char(
        spec_remove_char(spec_replace_pair(s, UNIT_SEPARATOR, '$', ':'), '{'),
        '}',
    )
}

/// The prices of a (masked) price field: none when the field is blank or no
/// entry reads.
pub open spec fn spec_parse_item_prices(s: Seq<char>) -> Option<Seq<ItemPrice>> {
    if spec_is_blank(s) {
        None
    } else {
        let ps = spec_price_entries(spec_split(spec_price_text(s), UNIT_SEPARATOR));
        if ps.len() == 0 {
            None
        } else {
            Some(ps)
        }
    }
}

/// Reads one `level:price` entry.
fn parse_price_entry(e: &[char]) -> (r: Option<ItemPrice>)
    ensures
        r == spec_price_entry(e@),
        r matches Some(p) ==> p.price.wf(),
{
    let parts = split(e, ':');
    if parts.len() != 2 {
        return None;
    }
    let a = trim(parts[0].as_slice());
    let b = trim(parts[1].as_slice());
    let level = parse_i32(a.as_slice());
    let text = string_of(b.as_slice());
    let price = parse_amount(text.as_str());
    match (level, price) {
        (Some(id), Some(p)) => Some(ItemPrice { price_level_id: id, price: p }),
        _ => None,
    }
}

/// Every price of a list is within the decimal range.
pub open spec fn spec_prices_wf(ps: Seq<ItemPrice>) -> bool {
    forall|k: int| 0 <= k < ps.len() ==> (#[trigger] ps[k]).price.wf()
}

/// Reads the prices of a masked price field such as `{1␟$5.99␟2␟$6.99}`.
pub fn parse_item_prices(s: &str) -> (r: Option<Vec<ItemPrice>>)
    ensures
        match r {
            Some(v) => spec_parse_item_prices(s@) == Some(v@) && spec_prices_wf(v@),
            None => spec_parse_item_prices(s@) is None,
        },
{
    let v = chars_of(s);
    if is_blank(v.as_slice()) {
        return None;
    }
    let t1 = replace_pair(v.as_slice(), UNIT_SEPARATOR, '$', ':');
    let t2 = remove_char(t1.as_slice(), '{');
    let t3 = remove_char(t2.as_slice(), '}');
    let entries = split(t3.as_slice(), UNIT_SEPARATOR);
    let ghost es = spec_split(spec_price_text(s@), UNIT_SEPARATOR);
    let mut out: Vec<ItemPrice> = Vec::new();
    let mut i: usize = 0;
    while i < entries.len()
        invariant
            i <= es.len(),
            entries@.len() == es.len(),
            forall|k: int| 0 <= k < es.len() ==> #[trigger] entries@[k]@ == es[k],
            out@ == spec_price_entries(es.take(i as int)),
            spec_prices_wf(out@),
        decreases entries.len() - i,
    {
        proof {
            assert(es.take(i + 1).drop_last() =~= es.take(i as int));
            assert(es.take(i + 1).last() == es[i as int]);
            assert(entries@[i as int]@ == es[i as int]);
        }
        match parse_price_entry(entries[i].as_slice()) {
            Some(p) => {
                out.push(p);
            },
            None => {},
        }
        i += 1;
    }
    proof {
        assert(es.take(es.len() as int) =~= es);
    }
    if out.len() == 0 {
        None
    } else {
        Some(out)
    }
}

/// The integers of a braced, unit-separated list such as `{3␟1␟7␟2}`.
pub open spec fn spec_braced_numbers(s: Seq<char>) -> Seq<i32> {
    spec_parsed_ints(
        spec_split(spec_trim_end_char(spec_trim_start_char(s, '{'), '}'), UNIT_SEPARATOR),
    )
}

/// Consecutive pairs of a list of integers; an odd last one is dropped.
pub open spec fn spec_pairs(nums: Seq<i32>) -> Seq<(i32, i32)> {
    Seq::new(nums.len() / 2, |k: int| (nums[2 * k], nums[2 * k + 1]))
}

/// The choice groups of a masked field: pairs of group id and sequence
/// number, none when there are none.
pub open spec fn spec_parse_choice_groups(s: Seq<char>) -> Option<Seq<(i32, i32)>> {
    let p = spec_pairs(spec_braced_numbers(s));
    if p.len() == 0 {
        None
    } else {
        Some(p)
    }
}

/// The kitchen printers of a masked field: pairs of printer id and a flag
/// that is set when the second number is not zero, none when there are none.
pub open spec fn spec_parse_printer_logicals(s: Seq<char>) -> Option<Seq<(i32, bool)>> {
    let p = spec_pairs(spec_braced_numbers(s));
    if p.len() == 0 {
        None
    } else {
        Some(p.map_values(|q: (i32, i32)| (q.0, q.1 != 0)))
    }
}

fn braced_numbers(s: &str) -> (r: Vec<i32>)
    ensures
        r@ == spec_braced_numbers(s@),
{
    let v = chars_of(s);
    let a = trim_start_char(v.as_slice(), '{');
    let b = trim_end_char(a.as_slice(), '}');
    let pieces = split(b.as_slice(), UNIT_SEPARATOR);
    parse_each_int(
        &pieces,
        Ghost(spec_split(spec_trim_end_char(spec_trim_start_char(s@, '{'), '}'), UNIT_SEPARATOR)),
    )
}

/// Reads the choice groups of a masked field such as `{3␟1␟7␟2}`.
pub fn parse_choice_groups(input: &str) -> (r: Option<Vec<(i32, i32)>>)
    ensures
        match r {
            Some(v) => spec_parse_choice_groups(input@) == Some(v@),
            None => spec_parse_choice_groups(input@) is None,
        },
{
    let nums = braced_numbers(input);
    let ghost p = spec_pairs(nums@);
    let mut out: Vec<(i32, i32)> = Vec::new();
    let mut i: usize = 0;
    while nums.len() - i >= 2
        invariant
            i <= nums@.len(),
            i == 2 * out@.len(),
            p == spec_pairs(nums@),
            forall|j: int| 0 <= j < out@.len() ==> #[trigger] out@[j] == p[j],
        decreases nums.len() - i,
    {
        out.push((nums[i], nums[i + 1]));
        i += 2;
    }
    proof {
        assert(out@ =~= p);
    }
    if out.len() == 0 {
        None
    } else {
        Some(out)
    }
}

/// Reads the kitchen printers of a masked field such as `{2␟1␟4␟0}`.
pub fn parse_printer_logicals(input: &str) -> (r: Option<Vec<(i32, bool)>>)
    ensures
        match r {
            Some(v) => spec_parse_printer_logicals(input@) == Some(v@),
            None => spec_parse_printer_logicals(input@) is None,
        },
{
    let nums = braced_numbers(input);
    let ghost p = spec_pairs(nums@);
    let mut out: Vec<(i32, bool)> = Vec::new();
    let mut i: usize = 0;
    while nums.len() - i >= 2
        invariant
            i <= nums@.len(),
            i == 2 * out@.len(),
            p == spec_pairs(nums@),
            forall|j: int| 0 <= j < out@.len() ==> #[trigger] out@[j] == (p[j].0, p[j].1 != 0),
        decreases nums.len() - i,
    {
        out.push((nums[i], nums[i + 1] != 0));
        i += 2;
    }
    proof {
        assert(out@ =~= p.map_values(|q: (i32, i32)| (q.0, q.1 != 0)));
    }
    if out.len() == 0 {
        None
    } else {
        Some(out)
    }
}

// ---------------------------------------------------------------------
// Records
// ---------------------------------------------------------------------

/// The number of fields of an item record.
pub const EXPECTED_FIELD_COUNT: usize = 42;

/// The fields of a record as texts.
pub open spec fn row_view(row: Seq<String>) -> Seq<Seq<char>> {
    row.map_values(|f: String| f@)
}

/// The records of a table as texts.
pub open spec fn rows_view(rows: Seq<Vec<String>>) -> Seq<Seq<Seq<char>>> {
    rows.map_values(|r: Vec<String>| row_view(r@))
}

/// What the `csv` reader (no header row, default settings) reads from a
/// text: the records read before the first error, and the text of that
/// error if there is one.
pub uninterp spec fn spec_csv_records(text: Seq<char>) -> (Seq<Seq<Seq<char>>>, Option<Seq<char>>);

/// Reads the records of a text with `csv::ReaderBuilder` (no header row)
/// and `Reader::records`, stopping at the first error; the outcome is named
/// by `spec_csv_records` and is a function of the text.
#[verifier::external_body]
fn read_csv_records(text: &str) -> (r: (Vec<Vec<String>>, Option<String>))
    ensures
        rows_view(r.0@) == spec_csv_records(text@).0,
        opt_text(r.1) == spec_csv_records(text@).1,
{
    let mut reader = csv::ReaderBuilder::new().has_headers(false).from_reader(text.as_bytes());
    let mut rows: Vec<Vec<String>> = Vec::new();
    for result in reader.records() {
        match result {
            Ok(record) => rows.push(record.iter().map(|f| f.to_string()).collect()),
            Err(e) => return (rows, Some(e.to_string())),
        }
    }
    (rows, None)
}

/// Why a file could not be imported.
#[derive(Clone, Debug)]
pub enum ImportError {
    /// The reader stopped on malformed input; its message.
    Csv(String),
    /// A record (counted from one) holds fewer fields than an item has.
    MissingFields(usize, usize),
    /// A record holds another number of fields than an item has.
    UnexpectedFieldCount(usize),
    /// A later price of a record (counted from one) names the lowest level
    /// id, which cannot be moved down by one.
    PriceLevelOutOfRange(usize),
    /// No record held an item with a readable id.
    NoValidItems,
}

/// The outcome of an import as plain values.
pub enum ImportErrorModel {
    Csv(Seq<char>),
    MissingFields(usize, usize),
    UnexpectedFieldCount(usize),
    PriceLevelOutOfRange(usize),
    NoValidItems,
}

impl View for ImportError {
    type V = ImportErrorModel;

    open spec fn view(&self) -> ImportErrorModel {
        match self {
            ImportError::Csv(m) => ImportErrorModel::Csv(m@),
            ImportError::MissingFields(a, b) => ImportErrorModel::MissingFields(*a, *b),
            ImportError::UnexpectedFieldCount(n) => ImportErrorModel::UnexpectedFieldCount(*n),
            ImportError::PriceLevelOutOfRange(n) => ImportErrorModel::PriceLevelOutOfRange(*n),
            ImportError::NoValidItems => ImportErrorModel::NoValidItems,
        }
    }
}

/// The message of an import error.
pub open spec fn spec_import_message(e: ImportErrorModel) -> Seq<char> {
    match e {
        ImportErrorModel::Csv(m) => m,
        ImportErrorModel::MissingFields(r, n) => "record "@ + spec_int_text(r as int)
            + ": found "@ + spec_int_text(n as int) + " fields, expected 42"@,
        ImportErrorModel::UnexpectedFieldCount(n) => "Unexpected field count: "@ + spec_int_text(
            n as int,
        ),
        ImportErrorModel::PriceLevelOutOfRange(r) => "record "@ + spec_int_text(r as int)
            + ": price level id out of range"@,
        ImportErrorModel::NoValidItems => "No valid items found in the file."@,
    }
}

fn usize_text(n: usize) -> (r: String)
    requires
        n <= i32::MAX,
    ensures
        r@ == spec_int_text(n as int),
{
    int_string(n as i32)
}

impl ImportError {
    /// The message shown for the error.
    pub fn to_display_string(&self) -> (r: String)
        requires
            match self {
                ImportError::MissingFields(a, b) => *a <= i32::MAX && *b <= i32::MAX,
                ImportError::UnexpectedFieldCount(n) => *n <= i32::MAX,
                ImportError::PriceLevelOutOfRange(n) => *n <= i32::MAX,
                _ => true,
            },
        ensures
            r@ == spec_import_message(self@),
    {
        match self {
            ImportError::Csv(m) => m.clone(),
            ImportError::MissingFields(a, b) => {
                let mut r = text("record ");
                let x = usize_text(*a);
                push_str(&mut r, x.as_str());
                push_str(&mut r, ": found ");
                let y = usize_text(*b);
                push_str(&mut r, y.as_str());
                push_str(&mut r, " fields, expected 42");
                r
            },
            ImportError::UnexpectedFieldCount(n) => {
                let mut r = text("Unexpected field count: ");
                let x = usize_text(*n);
                push_str(&mut r, x.as_str());
                r
            },
            ImportError::PriceLevelOutOfRange(n) => {
                let mut r = text("record ");
                let x = usize_text(*n);
                push_str(&mut r, x.as_str());
                push_str(&mut r, ": price level id out of range");
                r
            },
            ImportError::NoValidItems => text("No valid items found in the file."),
        }
    }
}

/// Checks that every record of a text holds exactly the fields of an item,
/// after masking the commas inside braces.
pub open spec fn spec_check_rows(rows: Seq<Seq<Seq<char>>>, err: Option<Seq<char>>) -> Result<
    (),
    ImportErrorModel,
>
    decreases rows.len(),
{
    if rows.len() == 0 {
        match err {
            Some(e) => Err(ImportErrorModel::Csv(e)),
            None => Ok(()),
        }
    } else if rows[0].len() != EXPECTED_FIELD_COUNT {
        Err(ImportErrorModel::UnexpectedFieldCount(rows[0].len() as usize))
    } else {
        spec_check_rows(rows.drop_first(), err)
    }
}

/// The outcome of checking the format of a file's text.
pub open spec fn spec_verify_csv_format(contents: Seq<char>) -> Result<(), ImportErrorModel> {
    let read = spec_csv_records(spec_mask_braced_commas(contents));
    spec_check_rows(read.0, read.1)
}

/// Checks that every record of the text holds exactly the fields of an item.
pub fn verify_csv_format(contents: &str) -> (r: Result<(), ImportError>)
    ensures
        match r {
            Ok(()) => spec_verify_csv_format(contents@) is Ok,
            Err(e) => spec_verify_csv_format(contents@) == Err::<(), ImportErrorModel>(e@),
        },
{
    let masked = mask_braced_commas(contents);
    let (rows, err) = read_csv_records(masked.as_str());
    let ghost rv = rows_view(rows@);
    let mut i: usize = 0;
    proof {
        assert(rv.skip(0) =~= rv);
        assert(rv == spec_csv_records(spec_mask_braced_commas(contents@)).0);
        assert(opt_text(err) == spec_csv_records(spec_mask_braced_commas(contents@)).1);
    }
    while i < rows.len()
        invariant
            i <= rows@.len(),
            rv == rows_view(rows@),
            rv == spec_csv_records(spec_mask_braced_commas(contents@)).0,
            opt_text(err) == spec_csv_records(spec_mask_braced_commas(contents@)).1,
            spec_check_rows(rv.skip(i as int), opt_text(err)) == spec_check_rows(rv, opt_text(err)),
        decreases rows.len() - i,
    {
        proof {
            assert(rv.skip(i as int)[0] == rv[i as int]);
            assert(rv[i as int].len() == rows@[i as int]@.len());
            assert(rv.skip(i as int).drop_first() =~= rv.skip(i + 1));
        }
        if rows[i].len() != EXPECTED_FIELD_COUNT {
            proof {
                assert(spec_check_rows(rv.skip(i as int), opt_text(err)) == Err::<(), ImportErrorModel>(
                    ImportErrorModel::UnexpectedFieldCount(rows@[i as int]@.len() as usize)));
            }
            return Err(ImportError::UnexpectedFieldCount(rows[i].len()));
        }
        i += 1;
    }
    proof {
        assert(rv.skip(i as int) =~= Seq::<Seq<Seq<char>>>::empty());
    }
    match err {
        Some(e) => Err(ImportError::Csv(e)),
        None => Ok(()),
    }
}

/// The price an item gets when its record holds none: level 1, `0.00`.
pub open spec fn spec_fallback_price() -> ItemPrice {
    ItemPrice { price_level_id: 1, price: Amount { mantissa: 0, scale: 2 } }
}

/// A later price with its level moved down by one.
pub open spec fn spec_shift_level(p: ItemPrice) -> ItemPrice {
    ItemPrice { price_level_id: (p.price_level_id - 1) as i32, price: p.price }
}

/// Whether the later prices of a record can have their level moved down by
/// one without leaving the id range.
pub open spec fn spec_record_prices_ok(f: Seq<Seq<char>>) -> bool {
    match spec_parse_item_prices(f[6]) {
        Some(ps) => forall|k: int| 1 <= k < ps.len() ==> (#[trigger] ps[k]).price_level_id > i32::MIN,
        None => true,
    }
}

/// The item a record of the item file describes, if its id reads. The first
/// price is the default price; the later prices become the item's prices
/// with their level moved down by one.
pub open spec fn spec_record_item(f: Seq<Seq<char>>) -> Option<ItemModel> {
    match spec_parse_i32(f[1]) {
        None => None,
        Some(id) => {
            let prices = spec_parse_item_prices(f[6]);
            let first = match prices {
                Some(ps) => ps[0],
                None => spec_fallback_price(),
            };
            let rest: Seq<ItemPrice> = match prices {
                Some(ps) => ps.drop_first(),
                None => Seq::empty(),
            };
            Some(
                ItemModel {
                    id: id,
                    name: f[2],
                    button1: f[3],
                    button2: spec_string_or_none(f[4]),
                    printer_text: f[5],
                    price_levels: None,
                    default_price: Some(first.price),
                    item_prices: if rest.len() == 0 {
                        None
                    } else {
                        Some(rest.map_values(|p: ItemPrice| spec_shift_level(p)))
                    },
                    product_class: spec_parse_entity_id(f[7]),
                    revenue_category: spec_parse_entity_id(f[8]),
                    tax_group: spec_parse_entity_id(f[9]),
                    security_level: spec_parse_entity_id(f[10]),
                    report_category: spec_parse_entity_id(f[11]),
                    use_weight: spec_parse_bool(f[12]),
                    weight_amount: spec_parse_decimal(f[13]),
                    sku: spec_string_or_none(f[14]),
                    bar_gun_code: spec_string_or_none(f[15]),
                    cost_amount: spec_parse_optional_decimal(f[16]),
                    reserved1: spec_parse_bool(f[17]),
                    ask_price: spec_parse_bool(f[18]),
                    print_on_check: spec_parse_bool(f[19]),
                    discountable: spec_parse_bool(f[20]),
                    voidable: spec_parse_bool(f[21]),
                    not_active: spec_parse_bool(f[22]),
                    tax_included: spec_parse_bool(f[23]),
                    item_group: spec_parse_entity_id(f[24]),
                    customer_receipt: f[25],
                    allow_price_override: spec_parse_bool(f[26]),
                    reserved2: spec_parse_bool(f[27]),
                    choice_groups: spec_parse_choice_groups(f[28]),
                    printer_logicals: spec_parse_printer_logicals(f[29]),
                    covers: spec_parse_int_or_zero(f[30]),
                    store_id: spec_parse_int_or_zero(f[31]),
                    kitchen_video: f[32],
                    kds_dept: spec_parse_int_or_zero(f[33]),
                    kds_category: f[34],
                    kds_cooktime: spec_parse_int_or_zero(f[35]),
                    store_price_level: spec_parse_entity_ids(f[36]),
                    image_id: spec_parse_int_or_zero(f[37]),
                    stock_item: spec_parse_bool(f[38]),
                    language_iso_code: f[39],
                },
            )
        },
    }
}

/// The default price and the later prices of a record's price field.
fn record_prices(field: &str) -> (r: (ItemPrice, Option<Vec<ItemPrice>>))
    requires
        match spec_parse_item_prices(field@) {
            Some(ps) => forall|k: int| 1 <= k < ps.len() ==> (#[trigger] ps[k]).price_level_id > i32::MIN,
            None => true,
        },
    ensures
        ({
            let prices = spec_parse_item_prices(field@);
            let first = match prices {
                Some(ps) => ps[0],
                None => spec_fallback_price(),
            };
            let rest: Seq<ItemPrice> = match prices {
                Some(ps) => ps.drop_first(),
                None => Seq::empty(),
            };
            &&& r.0.price == first.price
            &&& r.0.price.wf()
            &&& match r.1 {
                Some(v) => rest.len() > 0 && v@ == rest.map_values(|p: ItemPrice| spec_shift_level(p)),
                None => rest.len() == 0,
            }
        }),
{
    match parse_item_prices(field) {
        None => (ItemPrice { price_level_id: 1, price: Amount::new(0, 2) }, None),
        Some(ps) => {
            let first = ps[0];
            let mut rest: Vec<ItemPrice> = Vec::new();
            let mut i: usize = 1;
            proof {
                assert(spec_parse_item_prices(field@) == Some(ps@));
                let sp = spec_parse_item_prices(field@);
                assert(sp->0 == ps@);
                assert forall|k: int| 1 <= k < ps@.len() implies (#[trigger] ps@[k]).price_level_id
                    > i32::MIN by {
                    assert(sp->0[k] == ps@[k]);
                }
                assert(rest@ =~= ps@.subrange(1, 1).map_values(|p: ItemPrice| spec_shift_level(p)));
            }
            while i < ps.len()
                invariant
                    1 <= i <= ps@.len(),
                    spec_parse_item_prices(field@) == Some(ps@),
                    forall|k: int| 1 <= k < ps@.len() ==> (#[trigger] ps@[k]).price_level_id > i32::MIN,
                    rest@ == ps@.subrange(1, i as int).map_values(|p: ItemPrice| spec_shift_level(p)),
                decreases ps.len() - i,
            {
                let p = ps[i];
                rest.push(ItemPrice { price_level_id: p.price_level_id - 1, price: p.price });
                i += 1;
                proof {
                    assert(rest@ =~= ps@.subrange(1, i as int).map_values(
                        |p: ItemPrice| spec_shift_level(p),
                    ));
                }
            }
            proof {
                assert(ps@.subrange(1, ps@.len() as int) =~= ps@.drop_first());
                assert(ps@[0].price.wf());
            }
            if rest.len() == 0 {
                (first, None)
            } else {
                (first, Some(rest))
            }
        },
    }
}

/// Builds the item a record describes; none when its id does not read.
#[verifier::rlimit(100)]
#[verifier::spinoff_prover]
pub fn item_from_record(f: &Vec<String>) -> (r: Option<Item>)
    requires
        f@.len() >= EXPECTED_FIELD_COUNT,
        spec_record_prices_ok(row_view(f@)),
    ensures
        match r {
            Some(it) => spec_record_item(row_view(f@)) == Some(it@),
            None => spec_record_item(row_view(f@)) is None,
        },
{
    let id = match parse_i32_field(f[1].as_str()) {
        Some(id) => id,
        None => return None,
    };
    let (first, item_prices) = record_prices(f[6].as_str());
    let it = Item {
        id: id,
        name: f[2].clone(),
        button1: f[3].clone(),
        button2: string_or_none(f[4].as_str()),
        printer_text: f[5].clone(),
        default_price: Some(first.price),
        price_levels: None,
        item_prices: item_prices,
        product_class: parse_entity_id(f[7].as_str()),
        revenue_category: parse_entity_id(f[8].as_str()),
        tax_group: parse_entity_id(f[9].as_str()),
        security_level: parse_entity_id(f[10].as_str()),
        report_category: parse_entity_id(f[11].as_str()),
        use_weight: parse_bool(f[12].as_str()),
        weight_amount: parse_decimal(f[13].as_str()),
        sku: string_or_none(f[14].as_str()),
        bar_gun_code: string_or_none(f[15].as_str()),
        cost_amount: parse_optional_decimal(f[16].as_str()),
        reserved1: parse_bool(f[17].as_str()),
        ask_price: parse_bool(f[18].as_str()),
        print_on_check: parse_bool(f[19].as_str()),
        discountable: parse_bool(f[20].as_str()),
        voidable: parse_bool(f[21].as_str()),
        not_active: parse_bool(f[22].as_str()),
        tax_included: parse_bool(f[23].as_str()),
        item_group: parse_entity_id(f[24].as_str()),
        customer_receipt: f[25].clone(),
        allow_price_override: parse_bool(f[26].as_str()),
        reserved2: parse_bool(f[27].as_str()),
        choice_groups: parse_choice_groups(f[28].as_str()),
        printer_logicals: parse_printer_logicals(f[29].as_str()),
        covers: parse_int_or_zero(f[30].as_str()),
        store_id: parse_int_or_zero(f[31].as_str()),
        kitchen_video: f[32].clone(),
        kds_dept: parse_int_or_zero(f[33].as_str()),
        kds_category: f[34].clone(),
        kds_cooktime: parse_int_or_zero(f[35].as_str()),
        store_price_level: parse_entity_ids(f[36].as_str()),
        image_id: parse_int_or_zero(f[37].as_str()),
        stock_item: parse_bool(f[38].as_str()),
        language_iso_code: f[39].clone(),
    };
    Some(it)
}

/// Reads an integer field as it stands.
fn parse_i32_field(s: &str) -> (r: Option<i32>)
    ensures
        r == spec_parse_i32(s@),
{
    let v = chars_of(s);
    parse_i32(v.as_slice())
}

/// Whether the later prices of every record that is read (up to the first
/// record that is too short) can have their level moved down by one.
pub open spec fn spec_rows_ok(rows: Seq<Seq<Seq<char>>>) -> bool
    decreases rows.len(),
{
    if rows.len() == 0 {
        true
    } else if rows[0].len() < EXPECTED_FIELD_COUNT {
        true
    } else {
        spec_record_prices_ok(rows[0]) && spec_rows_ok(rows.drop_first())
    }
}

/// The items of the records, read in order into the map `m` (a later record
/// replaces an earlier one with the same id); `n` records came before.
pub open spec fn spec_collect_rows(
    rows: Seq<Seq<Seq<char>>>,
    err: Option<Seq<char>>,
    m: Map<EntityId, ItemModel>,
    n: nat,
) -> Result<Map<EntityId, ItemModel>, ImportErrorModel>
    decreases rows.len(),
{
    if rows.len() == 0 {
        match err {
            Some(e) => Err(ImportErrorModel::Csv(e)),
            None => if m.is_empty() {
                Err(ImportErrorModel::NoValidItems)
            } else {
                Ok(m)
            },
        }
    } else if rows[0].len() < EXPECTED_FIELD_COUNT {
        Err(ImportErrorModel::MissingFields((n + 1) as usize, rows[0].len() as usize))
    } else {
        let m2 = match spec_record_item(rows[0]) {
            Some(it) => m.insert(it.id, it),
            None => m,
        };
        spec_collect_rows(rows.drop_first(), err, m2, n + 1)
    }
}

/// Whether an outcome of reading items is the one the specification gives.
pub open spec fn spec_import_outcome(
    r: Result<BTreeMap<EntityId, Item>, ImportError>,
    expected: Result<Map<EntityId, ItemModel>, ImportErrorModel>,
) -> bool {
    match r {
        Ok(m) => expected == Ok::<Map<EntityId, ItemModel>, ImportErrorModel>(items_model(m@)),
        Err(e) => expected == Err::<Map<EntityId, ItemModel>, ImportErrorModel>(e@),
    }
}

proof fn lemma_rows_step(rows: Seq<Seq<Seq<char>>>, i: int)
    requires
        0 <= i < rows.len(),
    ensures
        rows.skip(i)[0] == rows[i],
        rows.skip(i).drop_first() == rows.skip(i + 1),
{
    assert(rows.skip(i).drop_first() =~= rows.skip(i + 1));
}

/// Reads the items of the records, in order. A record that is too short
/// stops the reading with an error; so does the reader's own error after
/// the records it read; a record whose id does not read is skipped.
pub fn collect_items_from_records(rows: &Vec<Vec<String>>, err: Option<String>) -> (r: Result<
    BTreeMap<EntityId, Item>,
    ImportError,
>)
    requires
        spec_rows_ok(rows_view(rows@)),
    ensures
        spec_import_outcome(r, spec_collect_rows(rows_view(rows@), opt_text(err), Map::empty(), 0)),
{
    let ghost rv = rows_view(rows@);
    let ghost target = spec_collect_rows(rv, opt_text(err), Map::empty(), 0);
    let mut m: BTreeMap<EntityId, Item> = BTreeMap::new();
    let mut i: usize = 0;
    proof {
        assert(rv.skip(0) =~= rv);
        assert(items_model(m@) =~= Map::<EntityId, ItemModel>::empty());
    }
    while i < rows.len()
        invariant
            i <= rows@.len(),
            rv == rows_view(rows@),
            spec_rows_ok(rv.skip(i as int)),
            target == spec_collect_rows(rv, opt_text(err), Map::empty(), 0),
            spec_collect_rows(rv.skip(i as int), opt_text(err), items_model(m@), i as nat) == target,
        decreases rows.len() - i,
    {
        proof {
            lemma_rows_step(rv, i as int);
            assert(rv[i as int] == row_view(rows@[i as int]@));
            assert(rv[i as int].len() == rows@[i as int]@.len());
        }
        let row = &rows[i];
        if row.len() < EXPECTED_FIELD_COUNT {
            return Err(ImportError::MissingFields(i + 1, row.len()));
        }
        let ghost before = items_model(m@);
        match item_from_record(row) {
            Some(it) => {
                let id = it.id;
                let ghost itv = it@;
                m.insert(id, it);
                proof {
                    assert(items_model(m@) =~= before.insert(itv.id, itv));
                }
            },
            None => {},
        }
        i += 1;
    }
    proof {
        assert(rv.skip(i as int) =~= Seq::<Seq<Seq<char>>>::empty());
        assert(items_model(m@).dom() =~= m@.dom());
    }
    match err {
        Some(e) => Err(ImportError::Csv(e)),
        None => {
            if m.is_empty() {
                Err(ImportError::NoValidItems)
            } else {
                Ok(m)
            }
        },
    }
}

/// Whether the later prices of a record's price field can have their level
/// moved down by one.
fn record_prices_ok(field: &str) -> (r: bool)
    ensures
        r == match spec_parse_item_prices(field@) {
            Some(ps) => forall|k: int| 1 <= k < ps.len() ==> (#[trigger] ps[k]).price_level_id
                > i32::MIN,
            None => true,
        },
{
    match parse_item_prices(field) {
        None => true,
        Some(ps) => {
            let mut i: usize = 1;
            while i < ps.len()
                invariant
                    1 <= i,
                    i <= ps@.len() || ps@.len() == 0,
                    spec_parse_item_prices(field@) == Some(ps@),
                    forall|k: int| 1 <= k < i ==> (#[trigger] ps@[k]).price_level_id > i32::MIN,
                decreases ps.len() - i,
            {
                if ps[i].price_level_id == i32::MIN {
                    proof {
                        let sp = spec_parse_item_prices(field@);
                        assert(sp->0 == ps@);
                        assert(sp->0[i as int].price_level_id == i32::MIN);
                    }
                    return false;
                }
                i += 1;
            }
            true
        },
    }
}

/// The index (counted from one) of the first record whose later prices
/// cannot have their level moved down, among the records that are read.
fn first_bad_row(rows: &Vec<Vec<String>>) -> (r: Option<usize>)
    ensures
        r is None <==> spec_rows_ok(rows_view(rows@)),
{
    let ghost rv = rows_view(rows@);
    let mut i: usize = 0;
    proof {
        assert(rv.skip(0) =~= rv);
    }
    while i < rows.len()
        invariant
            i <= rows@.len(),
            rv == rows_view(rows@),
            spec_rows_ok(rv) == spec_rows_ok(rv.skip(i as int)),
        decreases rows.len() - i,
    {
        proof {
            lemma_rows_step(rv, i as int);
            assert(rv[i as int] == row_view(rows@[i as int]@));
            assert(rv[i as int].len() == rows@[i as int]@.len());
        }
        if rows[i].len() < EXPECTED_FIELD_COUNT {
            return None;
        }
        proof {
            assert(rv[i as int][6] == rows@[i as int]@[6]@);
        }
        if !record_prices_ok(rows[i][6].as_str()) {
            return Some(i + 1);
        }
        i += 1;
    }
    proof {
        assert(rv.skip(i as int) =~= Seq::<Seq<Seq<char>>>::empty());
    }
    None
}

/// What reading the items of a file's text gives: the records read from
/// the masked text, collected in order; a later price whose level cannot be
/// moved down stops the reading.
pub open spec fn spec_collect_item_information(contents: Seq<char>) -> Result<
    Map<EntityId, ItemModel>,
    ImportErrorModel,
> {
    let read = spec_csv_records(spec_mask_braced_commas(contents));
    spec_collect_rows(read.0, read.1, Map::empty(), 0)
}

/// Reads the items of an item file's text: commas inside braces are masked,
/// the records are read without a header row, and each record with a
/// readable id gives an item (a later record replaces an earlier one with
/// the same id).
pub fn collect_item_information(contents: &str) -> (r: Result<BTreeMap<EntityId, Item>, ImportError>)
    ensures
        spec_rows_ok(spec_csv_records(spec_mask_braced_commas(contents@)).0) ==> spec_import_outcome(
            r,
            spec_collect_item_information(contents@),
        ),
        !spec_rows_ok(spec_csv_records(spec_mask_braced_commas(contents@)).0) ==> r matches Err(
            ImportError::PriceLevelOutOfRange(_),
        ),
{
    let masked = mask_braced_commas(contents);
    let (rows, err) = read_csv_records(masked.as_str());
    match first_bad_row(&rows) {
        Some(k) => Err(ImportError::PriceLevelOutOfRange(k)),
        None => collect_items_from_records(&rows, err),
    }
}

// ---------------------------------------------------------------------
// Referenced entities
// ---------------------------------------------------------------------

/// The item fields that name other entities.
#[derive(Clone, Copy, Debug, PartialEq, Eq)]
pub enum ItemReference {
    PriceLevels,
    ProductClass,
    RevenueCategory,
    TaxGroup,
    SecurityLevel,
    ReportCategory,
    ItemGroup,
    ChoiceGroups,
    PrinterLogicals,
}

/// The id an optional reference names, as a set.
pub open spec fn opt_id_set(o: Option<EntityId>) -> Set<EntityId> {
    match o {
        Some(x) => set![x],
        None => Set::empty(),
    }
}

/// The ids of an optional list, as a set.
pub open spec fn opt_ids_set(o: Option<Seq<EntityId>>) -> Set<EntityId> {
    Set::new(|x: EntityId| o is Some && o->0.contains(x))
}

/// The first components of an optional list of pairs, as a set.
pub open spec fn opt_firsts_set<T>(o: Option<Seq<(EntityId, T)>>) -> Set<EntityId> {
    Set::new(|x: EntityId| o is Some && exists|i: int| 0 <= i < o->0.len() && (#[trigger] o->0[i]).0 == x)
}

/// The price levels of an optional list of prices, as a set.
pub open spec fn opt_levels_set(o: Option<Seq<ItemPrice>>) -> Set<EntityId> {
    Set::new(
        |x: EntityId| o is Some && exists|i: int| 0 <= i < o->0.len() && (#[trigger] o->0[i]).price_level_id == x,
    )
}

/// The ids an item names through one of its reference fields; the price
/// levels are those of its level list, its prices and its store price levels.
pub open spec fn spec_item_refs(it: ItemModel, r: ItemReference) -> Set<EntityId> {
    match r {
        ItemReference::PriceLevels => opt_ids_set(it.price_levels).union(
            opt_levels_set(it.item_prices),
        ).union(opt_ids_set(it.store_price_level)),
        ItemReference::ProductClass => opt_id_set(it.product_class),
        ItemReference::RevenueCategory => opt_id_set(it.revenue_category),
        ItemReference::TaxGroup => opt_id_set(it.tax_group),
        ItemReference::SecurityLevel => opt_id_set(it.security_level),
        ItemReference::ReportCategory => opt_id_set(it.report_category),
        ItemReference::ItemGroup => opt_id_set(it.item_group),
        ItemReference::ChoiceGroups => opt_firsts_set(it.choice_groups),
        ItemReference::PrinterLogicals => opt_firsts_set(it.printer_logicals),
    }
}

/// The ids the items name through one reference field.
pub open spec fn spec_refs(items: Map<EntityId, Item>, r: ItemReference) -> Set<EntityId> {
    Set::new(
        |x: EntityId| exists|k: EntityId| items.contains_key(k) && #[trigger] spec_item_refs(items[k]@, r).contains(x),
    )
}

fn push_id(out: &mut Vec<EntityId>, x: EntityId)
    ensures
        forall|y: EntityId| #[trigger] final(out)@.contains(y) <==> old(out)@.contains(y) || y == x,
{
    let ghost before = out@;
    out.push(x);
    proof {
        assert forall|y: EntityId| #[trigger] out@.contains(y) <==> before.contains(y) || y == x by {
            if before.contains(y) {
                let i = choose|i: int| 0 <= i < before.len() && before[i] == y;
                assert(out@[i] == y);
            }
            if y == x {
                assert(out@[before.len() as int] == y);
            }
            if out@.contains(y) {
                let i = choose|i: int| 0 <= i < out@.len() && out@[i] == y;
                if i < before.len() {
                    assert(before[i] == y);
                }
            }
        }
    }
}

fn push_opt_id(out: &mut Vec<EntityId>, o: Option<EntityId>)
    ensures
        forall|y: EntityId| #[trigger] final(out)@.contains(y) <==> old(out)@.contains(y) || opt_id_set(o).contains(y),
{
    match o {
        Some(x) => push_id(out, x),
        None => {},
    }
}

fn push_opt_ids(out: &mut Vec<EntityId>, o: &Option<Vec<EntityId>>)
    ensures
        forall|y: EntityId| #[trigger] final(out)@.contains(y) <==> old(out)@.contains(y) || opt_ids_set(opt_seq_of(o)).contains(y),
{
    let ghost before = out@;
    match o {
        None => {},
        Some(v) => {
            let mut i: usize = 0;
            while i < v.len()
                invariant
                    i <= v@.len(),
                    forall|y: EntityId| #[trigger] out@.contains(y) <==> before.contains(y) || v@.take(i as int).contains(y),
                decreases v.len() - i,
            {
                proof {
                    assert forall|y: EntityId| #[trigger] v@.take(i + 1).contains(y) <==> v@.take(i as int).contains(y) || y == v@[i as int] by {
                        assert(v@.take(i + 1) =~= v@.take(i as int).push(v@[i as int]));
                        vstd::seq_lib::lemma_seq_contains_after_push(v@.take(i as int), v@[i as int], y);
                    }
                }
                push_id(out, v[i]);
                i += 1;
            }
            proof {
                assert(v@.take(v@.len() as int) =~= v@);
            }
        },
    }
}

fn push_firsts<T: Copy>(out: &mut Vec<EntityId>, o: &Option<Vec<(EntityId, T)>>)
    ensures
        forall|y: EntityId| #[trigger] final(out)@.contains(y) <==> old(out)@.contains(y) || opt_firsts_set(opt_seq_of(o)).contains(y),
{
    let ghost before = out@;
    match o {
        None => {},
        Some(v) => {
            let mut i: usize = 0;
            while i < v.len()
                invariant
                    i <= v@.len(),
                    forall|y: EntityId| #[trigger] out@.contains(y) <==> before.contains(y) || exists|j: int| 0 <= j < i && (#[trigger] v@[j]).0 == y,
                decreases v.len() - i,
            {
                push_id(out, v[i].0);
                i += 1;
            }
        },
    }
}

fn push_levels(out: &mut Vec<EntityId>, o: &Option<Vec<ItemPrice>>)
    ensures
        forall|y: EntityId| #[trigger] final(out)@.contains(y) <==> old(out)@.contains(y) || opt_levels_set(opt_seq_of(o)).contains(y),
{
    let ghost before = out@;
    match o {
        None => {},
        Some(v) => {
            let mut i: usize = 0;
            while i < v.len()
                invariant
                    i <= v@.len(),
                    forall|y: EntityId| #[trigger] out@.contains(y) <==> before.contains(y) || exists|j: int| 0 <= j < i && (#[trigger] v@[j]).price_level_id == y,
                decreases v.len() - i,
            {
                push_id(out, v[i].price_level_id);
                i += 1;
            }
        },
    }
}

/// The contents of an optional vector.
pub open spec fn opt_seq_of<T>(o: &Option<Vec<T>>) -> Option<Seq<T>> {
    match o {
        Some(v) => Some(v@),
        None => None,
    }
}

fn push_item_refs(out: &mut Vec<EntityId>, it: &Item, r: ItemReference)
    ensures
        forall|y: EntityId| #[trigger] final(out)@.contains(y) <==> old(out)@.contains(y) || spec_item_refs(it@, r).contains(y),
{
    match r {
        ItemReference::PriceLevels => {
            push_opt_ids(out, &it.price_levels);
            push_levels(out, &it.item_prices);
            push_opt_ids(out, &it.store_price_level);
        },
        ItemReference::ProductClass => push_opt_id(out, it.product_class),
        ItemReference::RevenueCategory => push_opt_id(out, it.revenue_category),
        ItemReference::TaxGroup => push_opt_id(out, it.tax_group),
        ItemReference::SecurityLevel => push_opt_id(out, it.security_level),
        ItemReference::ReportCategory => push_opt_id(out, it.report_category),
        ItemReference::ItemGroup => push_opt_id(out, it.item_group),
        ItemReference::ChoiceGroups => push_firsts(out, &it.choice_groups),
        ItemReference::PrinterLogicals => push_firsts(out, &it.printer_logicals),
    }
}

/// The ids the items name through one reference field (with repeats).
pub fn referenced_ids(items: &BTreeMap<EntityId, Item>, r: ItemReference) -> (out: Vec<EntityId>)
    ensures
        forall|y: EntityId| #[trigger] out@.contains(y) <==> spec_refs(items@, r).contains(y),
{
    let mut out: Vec<EntityId> = Vec::new();
    let ghost ks = vstd::std_specs::btree::spec_keys_iter(items).remaining();
    let ghost mut n: int = 0;
    for k in it: items.keys()
        invariant
            it.seq() == ks,
            ks.unref().to_set() == items@.dom(),
            n == it.index(),
            forall|y: EntityId| #[trigger] out@.contains(y) <==> exists|j: int| 0 <= j < n && spec_item_refs(items@[*ks[j]]@, r).contains(y),
    {
        proof {
            assert(ks.unref().to_set().contains(*ks[n]));
        }
        let item = items.get(k).unwrap();
        push_item_refs(&mut out, item, r);
        proof {
            n = n + 1;
        }
    }
    proof {
        assert(n == ks.len());
        assert forall|y: EntityId| #[trigger] out@.contains(y) <==> spec_refs(items@, r).contains(y) by {
            if out@.contains(y) {
                let j = choose|j: int| 0 <= j < n && spec_item_refs(items@[*ks[j]]@, r).contains(y);
                assert(ks.unref()[j] == *ks[j]);
                assert(ks.unref().to_set().contains(*ks[j]));
                assert(items@.contains_key(*ks[j]));
            }
            if spec_refs(items@, r).contains(y) {
                let k = choose|k: EntityId| items@.contains_key(k) && #[trigger] spec_item_refs(items@[k]@, r).contains(y);
                assert(ks.unref().to_set().contains(k));
                let j = choose|j: int| 0 <= j < ks.unref().len() && ks.unref()[j] == k;
                assert(*ks[j] == k);
            }
        }
    }
    out
}

/// `new` is `old` with a default record for every id of `refs` that `old`
/// lacks, named `prefix` and the id.
pub open spec fn spec_filled<T: Entity>(
    old: Map<EntityId, T>,
    new: Map<EntityId, T>,
    refs: Set<EntityId>,
    prefix: Seq<char>,
) -> bool {
    &&& forall|k: EntityId| #[trigger] new.contains_key(k) <==> old.contains_key(k) || refs.contains(k)
    &&& forall|k: EntityId| old.contains_key(k) ==> #[trigger] new[k] == old[k]
    &&& forall|k: EntityId|
        !old.contains_key(k) && refs.contains(k) ==> spec_is_default_with(
            &#[trigger] new[k],
            k,
            prefix + spec_int_text(k as int),
        )
}

/// Adds a default record named `prefix` and the id for every listed id that
/// the map lacks.
fn fill_missing<T: Entity>(ids: &Vec<EntityId>, prefix: &str, target: &mut BTreeMap<EntityId, T>)
    ensures
        spec_filled(old(target)@, final(target)@, Set::new(|y: EntityId| ids@.contains(y)), prefix@),
{
    let ghost before = target@;
    let mut i: usize = 0;
    while i < ids.len()
        invariant
            i <= ids@.len(),
            spec_filled(before, target@, Set::new(|y: EntityId| ids@.take(i as int).contains(y)), prefix@),
        decreases ids.len() - i,
    {
        let id = ids[i];
        proof {
            assert(ids@.take(i + 1) =~= ids@.take(i as int).push(id));
            assert forall|y: EntityId| #[trigger] ids@.take(i + 1).contains(y) <==> ids@.take(i as int).contains(y) || y == id by {
                vstd::seq_lib::lemma_seq_contains_after_push(ids@.take(i as int), id, y);
            }
        }
        let ghost g = target@;
        if !target.contains_key(&id) {
            let mut name = text(prefix);
            let n = int_string(id);
            push_str(&mut name, n.as_str());
            let rec = T::default_with(id, name);
            target.insert(id, rec);
        }
        proof {
            let ro = Set::new(|y: EntityId| ids@.take(i as int).contains(y));
            let rn = Set::new(|y: EntityId| ids@.take(i + 1).contains(y));
            assert forall|k: EntityId| !before.contains_key(k) && rn.contains(k) implies spec_is_default_with(
                &#[trigger] target@[k],
                k,
                prefix@ + spec_int_text(k as int),
            ) by {
                if k != id {
                    assert(ro.contains(k));
                    assert(target@[k] == g[k]);
                } else if g.contains_key(id) {
                    assert(ro.contains(k));
                }
            }
            assert forall|k: EntityId| before.contains_key(k) implies #[trigger] target@[k] == before[k] by {
                assert(g[k] == before[k]);
            }
        }
        i += 1;
    }
    proof {
        assert(ids@.take(ids@.len() as int) =~= ids@);
    }
}

/// Adds every price level the items name that is missing.
fn ensure_price_levels_exist(items: &BTreeMap<EntityId, Item>, price_levels: &mut BTreeMap<EntityId, PriceLevel>)
    ensures
        spec_filled(old(price_levels)@, final(price_levels)@, spec_refs(items@, ItemReference::PriceLevels), "Price Level "@),
{
    let ids = referenced_ids(items, ItemReference::PriceLevels);
    fill_missing(&ids, "Price Level ", price_levels);
    proof {
        assert(Set::new(|y: EntityId| ids@.contains(y)) =~= spec_refs(items@, ItemReference::PriceLevels));
    }
}

/// Adds every product class the items name that is missing.
fn ensure_product_classes_exist(items: &BTreeMap<EntityId, Item>, product_classes: &mut BTreeMap<EntityId, ProductClass>)
    ensures
        spec_filled(old(product_classes)@, final(product_classes)@, spec_refs(items@, ItemReference::ProductClass), "Product Class "@),
{
    let ids = referenced_ids(items, ItemReference::ProductClass);
    fill_missing(&ids, "Product Class ", product_classes);
    proof {
        assert(Set::new(|y: EntityId| ids@.contains(y)) =~= spec_refs(items@, ItemReference::ProductClass));
    }
}

/// Adds every revenue category the items name that is missing.
fn ensure_revenue_categories_exist(items: &BTreeMap<EntityId, Item>, revenue_categories: &mut BTreeMap<EntityId, RevenueCategory>)
    ensures
        spec_filled(old(revenue_categories)@, final(revenue_categories)@, spec_refs(items@, ItemReference::RevenueCategory), "Revenue Category "@),
{
    let ids = referenced_ids(items, ItemReference::RevenueCategory);
    fill_missing(&ids, "Revenue Category ", revenue_categories);
    proof {
        assert(Set::new(|y: EntityId| ids@.contains(y)) =~= spec_refs(items@, ItemReference::RevenueCategory));
    }
}

/// Adds every tax group the items name that is missing.
fn ensure_tax_groups_exist(items: &BTreeMap<EntityId, Item>, tax_groups: &mut BTreeMap<EntityId, TaxGroup>)
    ensures
        spec_filled(old(tax_groups)@, final(tax_groups)@, spec_refs(items@, ItemReference::TaxGroup), "Tax Group "@),
{
    let ids = referenced_ids(items, ItemReference::TaxGroup);
    fill_missing(&ids, "Tax Group ", tax_groups);
    proof {
        assert(Set::new(|y: EntityId| ids@.contains(y)) =~= spec_refs(items@, ItemReference::TaxGroup));
    }
}

/// Adds every security level the items name that is missing.
fn ensure_security_levels_exist(items: &BTreeMap<EntityId, Item>, security_levels: &mut BTreeMap<EntityId, SecurityLevel>)
    ensures
        spec_filled(old(security_levels)@, final(security_levels)@, spec_refs(items@, ItemReference::SecurityLevel), "Security Level "@),
{
    let ids = referenced_ids(items, ItemReference::SecurityLevel);
    fill_missing(&ids, "Security Level ", security_levels);
    proof {
        assert(Set::new(|y: EntityId| ids@.contains(y)) =~= spec_refs(items@, ItemReference::SecurityLevel));
    }
}

/// Adds every report category the items name that is missing.
fn ensure_report_categories_exist(items: &BTreeMap<EntityId, Item>, report_categories: &mut BTreeMap<EntityId, ReportCategory>)
    ensures
        spec_filled(old(report_categories)@, final(report_categories)@, spec_refs(items@, ItemReference::ReportCategory), "Report Category "@),
{
    let ids = referenced_ids(items, ItemReference::ReportCategory);
    fill_missing(&ids, "Report Category ", report_categories);
    proof {
        assert(Set::new(|y: EntityId| ids@.contains(y)) =~= spec_refs(items@, ItemReference::ReportCategory));
    }
}

/// Adds every item group the items name that is missing.
fn ensure_item_groups_exist(items: &BTreeMap<EntityId, Item>, item_groups: &mut BTreeMap<EntityId, ItemGroup>)
    ensures
        spec_filled(old(item_groups)@, final(item_groups)@, spec_refs(items@, ItemReference::ItemGroup), "Item Group "@),
{
    let ids = referenced_ids(items, ItemReference::ItemGroup);
    fill_missing(&ids, "Item Group ", item_groups);
    proof {
        assert(Set::new(|y: EntityId| ids@.contains(y)) =~= spec_refs(items@, ItemReference::ItemGroup));
    }
}

/// Adds every choice group the items name that is missing (named like an
/// item group).
fn ensure_choice_groups_exist(items: &BTreeMap<EntityId, Item>, choice_groups: &mut BTreeMap<EntityId, ChoiceGroup>)
    ensures
        spec_filled(old(choice_groups)@, final(choice_groups)@, spec_refs(items@, ItemReference::ChoiceGroups), "Item Group "@),
{
    let ids = referenced_ids(items, ItemReference::ChoiceGroups);
    fill_missing(&ids, "Item Group ", choice_groups);
    proof {
        assert(Set::new(|y: EntityId| ids@.contains(y)) =~= spec_refs(items@, ItemReference::ChoiceGroups));
    }
}

/// Adds every kitchen printer the items name that is missing.
fn ensure_printer_logicals_exist(items: &BTreeMap<EntityId, Item>, printer_logicals: &mut BTreeMap<EntityId, PrinterLogical>)
    ensures
        spec_filled(old(printer_logicals)@, final(printer_logicals)@, spec_refs(items@, ItemReference::PrinterLogicals), "Printer Logical "@),
{
    let ids = referenced_ids(items, ItemReference::PrinterLogicals);
    fill_missing(&ids, "Printer Logical ", printer_logicals);
    proof {
        assert(Set::new(|y: EntityId| ids@.contains(y)) =~= spec_refs(items@, ItemReference::PrinterLogicals));
    }
}

/// Every id an item names through the field is a key of the map.
pub open spec fn spec_refs_resolve<T>(items: Map<EntityId, Item>, r: ItemReference, m: Map<EntityId, T>) -> bool {
    forall|k: EntityId, x: EntityId|
        items.contains_key(k) && #[trigger] spec_item_refs(items[k]@, r).contains(x) ==> #[trigger] m.contains_key(x)
}

proof fn lemma_filled_resolves<T: Entity>(items: Map<EntityId, Item>, r: ItemReference, old: Map<EntityId, T>, new: Map<EntityId, T>, prefix: Seq<char>)
    requires
        spec_filled(old, new, spec_refs(items, r), prefix),
    ensures
        spec_refs_resolve(items, r, new),
{
    assert forall|k: EntityId, x: EntityId|
        items.contains_key(k) && #[trigger] spec_item_refs(items[k]@, r).contains(x) implies #[trigger] new.contains_key(x) by {
        assert(spec_refs(items, r).contains(x));
    }
}

/// Creates a default record for every entity the items name that does not
/// exist yet, so that every reference of every item resolves.
pub fn ensure_all_referenced_entities_exist(
    items: &BTreeMap<EntityId, Item>,
    price_levels: &mut BTreeMap<EntityId, PriceLevel>,
    product_classes: &mut BTreeMap<EntityId, ProductClass>,
    revenue_categories: &mut BTreeMap<EntityId, RevenueCategory>,
    tax_groups: &mut BTreeMap<EntityId, TaxGroup>,
    security_levels: &mut BTreeMap<EntityId, SecurityLevel>,
    report_categories: &mut BTreeMap<EntityId, ReportCategory>,
    item_groups: &mut BTreeMap<EntityId, ItemGroup>,
    choice_groups: &mut BTreeMap<EntityId, ChoiceGroup>,
    printer_logicals: &mut BTreeMap<EntityId, PrinterLogical>,
)
    ensures
        spec_filled(old(price_levels)@, final(price_levels)@, spec_refs(items@, ItemReference::PriceLevels), "Price Level "@),
        spec_filled(old(product_classes)@, final(product_classes)@, spec_refs(items@, ItemReference::ProductClass), "Product Class "@),
        spec_filled(old(revenue_categories)@, final(revenue_categories)@, spec_refs(items@, ItemReference::RevenueCategory), "Revenue Category "@),
        spec_filled(old(tax_groups)@, final(tax_groups)@, spec_refs(items@, ItemReference::TaxGroup), "Tax Group "@),
        spec_filled(old(security_levels)@, final(security_levels)@, spec_refs(items@, ItemReference::SecurityLevel), "Security Level "@),
        spec_filled(old(report_categories)@, final(report_categories)@, spec_refs(items@, ItemReference::ReportCategory), "Report Category "@),
        spec_filled(old(item_groups)@, final(item_groups)@, spec_refs(items@, ItemReference::ItemGroup), "Item Group "@),
        spec_filled(old(choice_groups)@, final(choice_groups)@, spec_refs(items@, ItemReference::ChoiceGroups), "Item Group "@),
        spec_filled(old(printer_logicals)@, final(printer_logicals)@, spec_refs(items@, ItemReference::PrinterLogicals), "Printer Logical "@),
        spec_refs_resolve(items@, ItemReference::PriceLevels, final(price_levels)@),
        spec_refs_resolve(items@, ItemReference::ProductClass, final(product_classes)@),
        spec_refs_resolve(items@, ItemReference::RevenueCategory, final(revenue_categories)@),
        spec_refs_resolve(items@, ItemReference::TaxGroup, final(tax_groups)@),
        spec_refs_resolve(items@, ItemReference::SecurityLevel, final(security_levels)@),
        spec_refs_resolve(items@, ItemReference::ReportCategory, final(report_categories)@),
        spec_refs_resolve(items@, ItemReference::ItemGroup, final(item_groups)@),
        spec_refs_resolve(items@, ItemReference::ChoiceGroups, final(choice_groups)@),
        spec_refs_resolve(items@, ItemReference::PrinterLogicals, final(printer_logicals)@),
{
    ensure_price_levels_exist(items, price_levels);
    ensure_product_classes_exist(items, product_classes);
    ensure_revenue_categories_exist(items, revenue_categories);
    ensure_tax_groups_exist(items, tax_groups);
    ensure_security_levels_exist(items, security_levels);
    ensure_report_categories_exist(items, report_categories);
    ensure_item_groups_exist(items, item_groups);
    ensure_choice_groups_exist(items, choice_groups);
    ensure_printer_logicals_exist(items, printer_logicals);
    proof {
        lemma_filled_resolves(items@, ItemReference::PriceLevels, old(price_levels)@, price_levels@, "Price Level "@);
        lemma_filled_resolves(items@, ItemReference::ProductClass, old(product_classes)@, product_classes@, "Product Class "@);
        lemma_filled_resolves(items@, ItemReference::RevenueCategory, old(revenue_categories)@, revenue_categories@, "Revenue Category "@);
        lemma_filled_resolves(items@, ItemReference::TaxGroup, old(tax_groups)@, tax_groups@, "Tax Group "@);
        lemma_filled_resolves(items@, ItemReference::SecurityLevel, old(security_levels)@, security_levels@, "Security Level "@);
        lemma_filled_resolves(items@, ItemReference::ReportCategory, old(report_categories)@, report_categories@, "Report Category "@);
        lemma_filled_resolves(items@, ItemReference::ItemGroup, old(item_groups)@, item_groups@, "Item Group "@);
        lemma_filled_resolves(items@, ItemReference::ChoiceGroups, old(choice_groups)@, choice_groups@, "Item Group "@);
        lemma_filled_resolves(items@, ItemReference::PrinterLogicals, old(printer_logicals)@, printer_logicals@, "Printer Logical "@);
    }
}

} // verus!
