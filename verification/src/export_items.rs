//! Writing items in the item file format: one record per item, 42
//! comma-separated fields, lists written between braces.

use crate::data_types::{EntityId, ItemPrice, text};
use crate::items::{Item, ItemModel};
use crate::money::{Amount, amount_text, spec_text};
use crate::import_items::{
    UNIT_SEPARATOR, spec_braced_numbers, spec_mask_braced_commas, spec_mask_char, spec_mask_from,
    spec_pairs, spec_parse_choice_groups, spec_parse_printer_logicals, spec_parsed_ints,
};
use crate::text::{
    int_string, lemma_first_index_at, lemma_first_index_none, lemma_int_text_shape,
    lemma_parse_int_text, lemma_trim_int_text, push_str, spec_int_text, spec_is_digit,
    spec_nat_text, spec_split, spec_trim, spec_trim_end_char, spec_trim_start_char, string_of,
    trim_end_char,
};
use vstd::prelude::*;

verus! {

// ---------------------------------------------------------------------
// Field texts
// ---------------------------------------------------------------------

/// A text between double quotes.
pub open spec fn spec_quoted(t: Seq<char>) -> Seq<char> {
    seq!['"'] + t + seq!['"']
}

/// A flag as `1` or `0`.
pub open spec fn spec_flag(b: bool) -> Seq<char> {
    if b {
        seq!['1']
    } else {
        seq!['0']
    }
}

/// The text of an optional id, `0` when absent.
pub open spec fn spec_opt_id_text(o: Option<EntityId>) -> Seq<char> {
    match o {
        Some(x) => spec_int_text(x as int),
        None => spec_int_text(0),
    }
}

/// The cost field: `$` and the cost, `$0.00` when there is none.
pub open spec fn spec_prepare_item_cost(x: Option<Amount>) -> Seq<char> {
    match x {
        Some(d) => seq!['$'] + spec_text(d),
        None => "$0.00"@,
    }
}

/// Writes the cost field.
pub fn prepare_item_cost(x: Option<Amount>) -> (r: String)
    requires
        x matches Some(d) ==> d.wf(),
    ensures
        r@ == spec_prepare_item_cost(x),
{
    match x {
        Some(d) => {
            let mut r = text("$");
            let t = amount_text(d);
            push_str(&mut r, t.as_str());
            proof {
                reveal_strlit("$");
                assert(r@ =~= seq!['$'] + spec_text(d));
            }
            r
        },
        None => text("$0.00"),
    }
}

/// The entries `a,b,` of a list of pairs, one after the other.
pub open spec fn spec_pair_entries(ps: Seq<(i32, Seq<char>)>) -> Seq<char>
    decreases ps.len(),
{
    if ps.len() == 0 {
        Seq::empty()
    } else {
        spec_pair_entries(ps.drop_last()) + spec_int_text(ps.last().0 as int) + seq![',']
            + ps.last().1 + seq![',']
    }
}

/// A braced list: the entries without their trailing commas, between braces.
pub open spec fn spec_braced(entries: Seq<char>) -> Seq<char> {
    spec_trim_end_char(seq!['{'] + entries, ',') + seq!['}']
}

/// The choice-group entries: each group id and its sequence number.
pub open spec fn spec_choice_entries(gs: Seq<(i32, i32)>) -> Seq<(i32, Seq<char>)> {
    gs.map_values(|g: (i32, i32)| (g.0, spec_int_text(g.1 as int)))
}

/// The printer entries: each printer id and its flag.
pub open spec fn spec_printer_entries(ps: Seq<(i32, bool)>) -> Seq<(i32, Seq<char>)> {
    ps.map_values(|p: (i32, bool)| (p.0, spec_flag(p.1)))
}

/// The choice-groups field: `{id,seq,id,seq}`, `{}` when there are none.
pub open spec fn spec_prepare_choice_groups(o: Option<Seq<(i32, i32)>>) -> Seq<char> {
    match o {
        Some(gs) => spec_braced(spec_pair_entries(spec_choice_entries(gs))),
        None => "{}"@,
    }
}

/// The kitchen-printers field: `{id,flag,id,flag}`, `{}` when there are none.
pub open spec fn spec_prepare_kitchen_printers(o: Option<Seq<(i32, bool)>>) -> Seq<char> {
    match o {
        Some(ps) => spec_braced(spec_pair_entries(spec_printer_entries(ps))),
        None => "{}"@,
    }
}

/// Appends `a,b,` to a string.
fn push_entry(s: &mut String, a: i32, b: &str)
    ensures
        final(s)@ == old(s)@ + spec_int_text(a as int) + seq![','] + b@ + seq![','],
{
    let t = int_string(a);
    push_str(s, t.as_str());
    push_str(s, ",");
    push_str(s, b);
    push_str(s, ",");
    proof {
        reveal_strlit(",");
        assert(","@ =~= seq![',']);
    }
}

/// Closes a braced list: drops the trailing commas and appends `}`.
fn close_braced(s: String) -> (r: String)
    ensures
        r@ == spec_trim_end_char(s@, ',') + seq!['}'],
{
    let v = crate::text::chars_of(s.as_str());
    let t = trim_end_char(v.as_slice(), ',');
    let mut r = string_of(t.as_slice());
    push_str(&mut r, "}");
    proof {
        reveal_strlit("}");
        assert(r@ =~= spec_trim_end_char(s@, ',') + seq!['}']);
    }
    r
}

/// Writes the choice-groups field.
pub fn prepare_choice_groups(o: &Option<Vec<(i32, i32)>>) -> (r: String)
    ensures
        r@ == spec_prepare_choice_groups(match o {
            Some(v) => Some(v@),
            None => None,
        }),
{
    match o {
        None => text("{}"),
        Some(gs) => {
            let mut s = text("{");
            let mut i: usize = 0;
            proof {
                reveal_strlit("{");
                assert(s@ =~= seq!['{'] + spec_pair_entries(spec_choice_entries(gs@.take(0))));
            }
            while i < gs.len()
                invariant
                    i <= gs@.len(),
                    s@ == seq!['{'] + spec_pair_entries(spec_choice_entries(gs@.take(i as int))),
                decreases gs.len() - i,
            {
                let g = gs[i];
                let n = int_string(g.1);
                let ghost before = s@;
                push_entry(&mut s, g.0, n.as_str());
                proof {
                    let e = spec_choice_entries(gs@.take(i + 1));
                    assert(e.drop_last() =~= spec_choice_entries(gs@.take(i as int)));
                    assert(e.last() == (g.0, spec_int_text(g.1 as int)));
                    assert(s@ =~= seq!['{'] + spec_pair_entries(e));
                }
                i += 1;
            }
            proof {
                assert(gs@.take(gs@.len() as int) =~= gs@);
            }
            close_braced(s)
        },
    }
}

/// Writes the kitchen-printers field.
pub fn prepare_kitchen_printers(o: &Option<Vec<(i32, bool)>>) -> (r: String)
    ensures
        r@ == spec_prepare_kitchen_printers(match o {
            Some(v) => Some(v@),
            None => None,
        }),
{
    match o {
        None => text("{}"),
        Some(ps) => {
            let mut s = text("{");
            let mut i: usize = 0;
            proof {
                reveal_strlit("{");
                assert(s@ =~= seq!['{'] + spec_pair_entries(spec_printer_entries(ps@.take(0))));
            }
            while i < ps.len()
                invariant
                    i <= ps@.len(),
                    s@ == seq!['{'] + spec_pair_entries(spec_printer_entries(ps@.take(i as int))),
                decreases ps.len() - i,
            {
                let p = ps[i];
                let f = if p.1 {
                    "1"
                } else {
                    "0"
                };
                proof {
                    reveal_strlit("1");
                    reveal_strlit("0");
                    assert(f@ =~= spec_flag(p.1));
                }
                push_entry(&mut s, p.0, f);
                proof {
                    let e = spec_printer_entries(ps@.take(i + 1));
                    assert(e.drop_last() =~= spec_printer_entries(ps@.take(i as int)));
                    assert(e.last() == (p.0, spec_flag(p.1)));
                    assert(s@ =~= seq!['{'] + spec_pair_entries(e));
                }
                i += 1;
            }
            proof {
                assert(ps@.take(ps@.len() as int) =~= ps@);
            }
            close_braced(s)
        },
    }
}

/// The price entries: the level moved up by one and `$` and the price.
pub open spec fn spec_price_entries_text(ps: Seq<ItemPrice>) -> Seq<char>
    decreases ps.len(),
{
    if ps.len() == 0 {
        Seq::empty()
    } else {
        spec_price_entries_text(ps.drop_last()) + spec_int_text(ps.last().price_level_id + 1)
            + ",$"@ + spec_text(ps.last().price) + seq![',']
    }
}

/// The prices field: `{1,$default,level,$price,...}` with each later level
/// moved up by one, the default `0.00` when the item has none; `""` when the
/// item has no list of prices.
pub open spec fn spec_prepare_item_prices(default_price: Option<Amount>, prices: Option<Seq<ItemPrice>>) -> Seq<char> {
    match prices {
        None => "\"\""@,
        Some(ps) => {
            let first = match default_price {
                Some(p) => "1,$"@ + spec_text(p) + seq![','],
                None => "1,$0.00,"@,
            };
            spec_braced(first + spec_price_entries_text(ps))
        },
    }
}

/// Every price is in range and its level can be moved up by one.
pub open spec fn spec_prices_writable(ps: Seq<ItemPrice>) -> bool {
    forall|k: int| 0 <= k < ps.len() ==> (#[trigger] ps[k]).price_level_id < i32::MAX && ps[k].price.wf()
}

/// Writes the prices field.
pub fn prepare_item_prices(default_price: Option<Amount>, prices: &Option<Vec<ItemPrice>>) -> (r: String)
    requires
        default_price matches Some(d) ==> d.wf(),
        prices matches Some(v) ==> spec_prices_writable(v@),
    ensures
        r@ == spec_prepare_item_prices(default_price, match prices {
            Some(v) => Some(v@),
            None => None,
        }),
{
    match prices {
        None => text("\"\""),
        Some(ps) => {
            let mut s = text("{");
            match default_price {
                Some(p) => {
                    push_str(&mut s, "1,$");
                    let t = amount_text(p);
                    push_str(&mut s, t.as_str());
                    push_str(&mut s, ",");
                },
                None => {
                    push_str(&mut s, "1,$0.00,");
                },
            }
            let ghost first = match default_price {
                Some(p) => "1,$"@ + spec_text(p) + seq![','],
                None => "1,$0.00,"@,
            };
            proof {
                reveal_strlit("{");
                reveal_strlit(",");
                assert(","@ =~= seq![',']);
                assert(s@ =~= seq!['{'] + first + spec_price_entries_text(ps@.take(0)));
            }
            let mut i: usize = 0;
            while i < ps.len()
                invariant
                    i <= ps@.len(),
                    spec_prices_writable(ps@),
                    s@ == seq!['{'] + first + spec_price_entries_text(ps@.take(i as int)),
                decreases ps.len() - i,
            {
                let p = ps[i];
                let lvl = int_string(p.price_level_id + 1);
                let t = amount_text(p.price);
                let ghost before = s@;
                push_str(&mut s, lvl.as_str());
                push_str(&mut s, ",$");
                push_str(&mut s, t.as_str());
                push_str(&mut s, ",");
                proof {
                    reveal_strlit(",");
                    assert(","@ =~= seq![',']);
                    let q = ps@.take(i + 1);
                    assert(q.drop_last() =~= ps@.take(i as int));
                    assert(q.last() == p);
                    assert(s@ =~= seq!['{'] + first + spec_price_entries_text(q));
                }
                i += 1;
            }
            proof {
                assert(ps@.take(ps@.len() as int) =~= ps@);
                assert(seq!['{'] + first + spec_price_entries_text(ps@) =~= seq!['{'] + (first
                    + spec_price_entries_text(ps@)));
            }
            close_braced(s)
        },
    }
}

// ---------------------------------------------------------------------
// Records
// ---------------------------------------------------------------------

/// Texts joined with a separator between each two.
pub open spec fn spec_join(parts: Seq<Seq<char>>, sep: Seq<char>) -> Seq<char>
    decreases parts.len(),
{
    if parts.len() == 0 {
        Seq::empty()
    } else if parts.len() == 1 {
        parts[0]
    } else {
        spec_join(parts.drop_last(), sep) + sep + parts.last()
    }
}

/// Joining at least two texts puts the first, the separator, then the rest
/// joined.
pub(crate) proof fn lemma_join_front(parts: Seq<Seq<char>>, sep: Seq<char>)
    requires
        parts.len() >= 2,
    ensures
        spec_join(parts, sep) == parts[0] + sep + spec_join(parts.drop_first(), sep),
    decreases parts.len(),
{
    if parts.len() == 2 {
        assert(parts.drop_first().len() == 1);
        assert(parts.drop_last().len() == 1);
        assert(spec_join(parts.drop_first(), sep) == parts[1]);
        assert(spec_join(parts.drop_last(), sep) == parts[0]);
    } else {
        let d = parts.drop_last();
        lemma_join_front(d, sep);
        assert(d.drop_first() =~= parts.drop_first().drop_last());
        assert(parts.drop_first().last() == parts.last());
        assert(spec_join(parts, sep) =~= parts[0] + sep + spec_join(parts.drop_first(), sep));
    }
}

/// The text of an optional text, empty when absent.
pub open spec fn spec_or_empty(o: Option<Seq<char>>) -> Seq<char> {
    match o {
        Some(t) => t,
        None => Seq::empty(),
    }
}

/// The language field: the code, `""` when there is none.
pub open spec fn spec_lang_field(t: Seq<char>) -> Seq<char> {
    if t.len() > 0 {
        t
    } else {
        "\"\""@
    }
}

/// The record of an item: its 42 fields, separated by commas.
pub open spec fn spec_item_export(it: ItemModel) -> Seq<char> {
    "\"A\""@
        + ","@ + spec_int_text(it.id as int)
        + ","@ + spec_quoted(it.name)
        + ","@ + spec_quoted(it.button1)
        + ","@ + spec_quoted(spec_or_empty(it.button2))
        + ","@ + spec_quoted(it.printer_text)
        + ","@ + spec_prepare_item_prices(it.default_price, it.item_prices)
        + ","@ + spec_opt_id_text(it.product_class)
        + ","@ + spec_opt_id_text(it.revenue_category)
        + ","@ + spec_opt_id_text(it.tax_group)
        + ","@ + spec_opt_id_text(it.security_level)
        + ","@ + spec_opt_id_text(it.report_category)
        + ","@ + spec_flag(it.use_weight)
        + ","@ + spec_text(it.weight_amount)
        + ","@ + spec_or_empty(it.sku)
        + ","@ + spec_or_empty(it.bar_gun_code)
        + ","@ + spec_prepare_item_cost(it.cost_amount)
        + ","@ + spec_flag(false)
        + ","@ + spec_flag(it.ask_price)
        + ","@ + spec_flag(it.print_on_check)
        + ","@ + spec_flag(it.discountable)
        + ","@ + spec_flag(it.voidable)
        + ","@ + spec_flag(it.not_active)
        + ","@ + spec_flag(it.tax_included)
        + ","@ + spec_opt_id_text(it.item_group)
        + ","@ + spec_quoted(it.customer_receipt)
        + ","@ + spec_flag(it.allow_price_override)
        + ","@ + spec_flag(false)
        + ","@ + spec_prepare_choice_groups(it.choice_groups)
        + ","@ + spec_prepare_kitchen_printers(it.printer_logicals)
        + ","@ + spec_int_text(it.covers as int)
        + ","@ + spec_int_text(it.store_id as int)
        + ","@ + spec_quoted(it.kitchen_video)
        + ","@ + spec_int_text(it.kds_dept as int)
        + ","@ + it.kds_category
        + ","@ + spec_int_text(it.kds_cooktime as int)
        + ","@ + "{}"@
        + ","@ + spec_int_text(it.image_id as int)
        + ","@ + spec_flag(it.stock_item)
        + ","@ + spec_lang_field(it.language_iso_code)
        + ","@ + spec_flag(false)
        + ","@ + "\"\""@
}

/// The 42 fields of an item's record, in the order the record writes them.
pub open spec fn spec_export_fields(it: ItemModel) -> Seq<Seq<char>> {
    seq![
        "\"A\""@,
        spec_int_text(it.id as int),
        spec_quoted(it.name),
        spec_quoted(it.button1),
        spec_quoted(spec_or_empty(it.button2)),
        spec_quoted(it.printer_text),
        spec_prepare_item_prices(it.default_price, it.item_prices),
        spec_opt_id_text(it.product_class),
        spec_opt_id_text(it.revenue_category),
        spec_opt_id_text(it.tax_group),
        spec_opt_id_text(it.security_level),
        spec_opt_id_text(it.report_category),
        spec_flag(it.use_weight),
        spec_text(it.weight_amount),
        spec_or_empty(it.sku),
        spec_or_empty(it.bar_gun_code),
        spec_prepare_item_cost(it.cost_amount),
        spec_flag(false),
        spec_flag(it.ask_price),
        spec_flag(it.print_on_check),
        spec_flag(it.discountable),
        spec_flag(it.voidable),
        spec_flag(it.not_active),
        spec_flag(it.tax_included),
        spec_opt_id_text(it.item_group),
        spec_quoted(it.customer_receipt),
        spec_flag(it.allow_price_override),
        spec_flag(false),
        spec_prepare_choice_groups(it.choice_groups),
        spec_prepare_kitchen_printers(it.printer_logicals),
        spec_int_text(it.covers as int),
        spec_int_text(it.store_id as int),
        spec_quoted(it.kitchen_video),
        spec_int_text(it.kds_dept as int),
        it.kds_category,
        spec_int_text(it.kds_cooktime as int),
        "{}"@,
        spec_int_text(it.image_id as int),
        spec_flag(it.stock_item),
        spec_lang_field(it.language_iso_code),
        spec_flag(false),
        "\"\""@,
    ]
}

/// The reference an exported field reads back as: the id, `0` for none.
pub open spec fn spec_written_ref(o: Option<EntityId>) -> Option<EntityId> {
    match o {
        Some(x) => Some(x),
        None => Some(0i32),
    }
}

proof fn lemma_join_push(s: Seq<Seq<char>>, x: Seq<char>, sep: Seq<char>)
    requires
        s.len() >= 1,
    ensures
        spec_join(s.push(x), sep) == spec_join(s, sep) + sep + x,
{
    assert(s.push(x).drop_last() =~= s);
}

/// The text of an id reads back as that id.
proof fn lemma_id_text_reads_back(o: Option<EntityId>)
    ensures
        crate::import_items::spec_parse_entity_id(spec_opt_id_text(o)) == spec_written_ref(o),
{
    let x: i32 = match o {
        Some(x) => x,
        None => 0i32,
    };
    lemma_int_text_shape(x as int);
    lemma_parse_int_text(x);
    let t = spec_int_text(x as int);
    assert(!crate::text::spec_is_ws(t[0]));
    assert(!crate::text::spec_is_blank(t));
}

/// A flag field reads back as the flag it was written from.
proof fn lemma_flag_reads_back(b: bool)
    ensures
        crate::import_items::spec_parse_bool(spec_flag(b)) == b,
{
    reveal_strlit("1");
    reveal_strlit("Y");
    reveal_strlit("YES");
    reveal_strlit("TRUE");
    reveal_strlit("true");
    reveal_strlit("yes");
    reveal_strlit("y");
    let n: int = if b { 1 } else { 0 };
    assert(spec_int_text(n) =~= spec_flag(b));
    lemma_trim_int_text(n);
    let t = spec_flag(b);
    assert(spec_trim(t) == t);
    if b {
        assert(t =~= "1"@);
    } else {
        assert(t.len() == 1 && t[0] == '0');
        assert(t != "1"@ && t != "Y"@ && t != "y"@) by {
            assert(t[0] != "1"@[0] && t[0] != "Y"@[0] && t[0] != "y"@[0]);
        }
        assert(t != "YES"@ && t != "TRUE"@ && t != "true"@ && t != "yes"@) by {
            assert(t.len() != "YES"@.len() && t.len() != "TRUE"@.len());
            assert(t.len() != "true"@.len() && t.len() != "yes"@.len());
        }
    }
}

/// Reading back the fields of an item's record gives the item's flags, its
/// counters (covers, store, kitchen department, cook time, image) and its
/// kitchen category, each from its own column.
#[verifier::rlimit(100)]
pub proof fn lemma_export_flags_and_numbers_read_back(it: ItemModel)
    ensures
        crate::import_items::spec_record_item(spec_export_fields(it)) matches Some(r) && {
            &&& r.use_weight == it.use_weight
            &&& r.ask_price == it.ask_price
            &&& r.print_on_check == it.print_on_check
            &&& r.discountable == it.discountable
            &&& r.voidable == it.voidable
            &&& r.not_active == it.not_active
            &&& r.tax_included == it.tax_included
            &&& r.allow_price_override == it.allow_price_override
            &&& r.stock_item == it.stock_item
            &&& r.covers == it.covers
            &&& r.store_id == it.store_id
            &&& r.kds_dept == it.kds_dept
            &&& r.kds_cooktime == it.kds_cooktime
            &&& r.image_id == it.image_id
            &&& r.kds_category == it.kds_category
        },
{
    lemma_parse_int_text(it.id);
    lemma_flag_reads_back(it.use_weight);
    lemma_flag_reads_back(it.ask_price);
    lemma_flag_reads_back(it.print_on_check);
    lemma_flag_reads_back(it.discountable);
    lemma_flag_reads_back(it.voidable);
    lemma_flag_reads_back(it.not_active);
    lemma_flag_reads_back(it.tax_included);
    lemma_flag_reads_back(it.allow_price_override);
    lemma_flag_reads_back(it.stock_item);
    lemma_parse_int_text(it.covers);
    lemma_parse_int_text(it.store_id);
    lemma_parse_int_text(it.kds_dept);
    lemma_parse_int_text(it.kds_cooktime);
    lemma_parse_int_text(it.image_id);
}

/// An item's record is its fields joined by commas, and reading those fields
/// back as a record gives the item's id and every single reference the item
/// names, each from its own column (a reference the item lacks is written,
/// and read back, as `0`).
#[verifier::rlimit(100)]
pub proof fn lemma_export_references_read_back(it: ItemModel)
    ensures
        spec_export_fields(it).len() == 42,
        spec_join(spec_export_fields(it), ","@) == spec_item_export(it),
        crate::import_items::spec_record_item(spec_export_fields(it)) matches Some(r) && {
            &&& r.id == it.id
            &&& r.product_class == spec_written_ref(it.product_class)
            &&& r.revenue_category == spec_written_ref(it.revenue_category)
            &&& r.tax_group == spec_written_ref(it.tax_group)
            &&& r.security_level == spec_written_ref(it.security_level)
            &&& r.report_category == spec_written_ref(it.report_category)
            &&& r.item_group == spec_written_ref(it.item_group)
        },
{
    let fs = spec_export_fields(it);
    let sep = ","@;
    assert(fs.take(1) =~= seq![fs[0]]);
    assert(spec_join(fs.take(1), sep) == "\"A\""@);
    assert(fs.take(2) =~= fs.take(1).push(fs[1]));
    lemma_join_push(fs.take(1), fs[1], sep);
    assert(fs.take(3) =~= fs.take(2).push(fs[2]));
    lemma_join_push(fs.take(2), fs[2], sep);
    assert(fs.take(4) =~= fs.take(3).push(fs[3]));
    lemma_join_push(fs.take(3), fs[3], sep);
    assert(fs.take(5) =~= fs.take(4).push(fs[4]));
    lemma_join_push(fs.take(4), fs[4], sep);
    assert(fs.take(6) =~= fs.take(5).push(fs[5]));
    lemma_join_push(fs.take(5), fs[5], sep);
    assert(fs.take(7) =~= fs.take(6).push(fs[6]));
    lemma_join_push(fs.take(6), fs[6], sep);
    assert(fs.take(8) =~= fs.take(7).push(fs[7]));
    lemma_join_push(fs.take(7), fs[7], sep);
    assert(fs.take(9) =~= fs.take(8).push(fs[8]));
    lemma_join_push(fs.take(8), fs[8], sep);
    assert(fs.take(10) =~= fs.take(9).push(fs[9]));
    lemma_join_push(fs.take(9), fs[9], sep);
    assert(fs.take(11) =~= fs.take(10).push(fs[10]));
    lemma_join_push(fs.take(10), fs[10], sep);
    assert(fs.take(12) =~= fs.take(11).push(fs[11]));
    lemma_join_push(fs.take(11), fs[11], sep);
    assert(fs.take(13) =~= fs.take(12).push(fs[12]));
    lemma_join_push(fs.take(12), fs[12], sep);
    assert(fs.take(14) =~= fs.take(13).push(fs[13]));
    lemma_join_push(fs.take(13), fs[13], sep);
    assert(fs.take(15) =~= fs.take(14).push(fs[14]));
    lemma_join_push(fs.take(14), fs[14], sep);
    assert(fs.take(16) =~= fs.take(15).push(fs[15]));
    lemma_join_push(fs.take(15), fs[15], sep);
    assert(fs.take(17) =~= fs.take(16).push(fs[16]));
    lemma_join_push(fs.take(16), fs[16], sep);
    assert(fs.take(18) =~= fs.take(17).push(fs[17]));
    lemma_join_push(fs.take(17), fs[17], sep);
    assert(fs.take(19) =~= fs.take(18).push(fs[18]));
    lemma_join_push(fs.take(18), fs[18], sep);
    assert(fs.take(20) =~= fs.take(19).push(fs[19]));
    lemma_join_push(fs.take(19), fs[19], sep);
    assert(fs.take(21) =~= fs.take(20).push(fs[20]));
    lemma_join_push(fs.take(20), fs[20], sep);
    assert(fs.take(22) =~= fs.take(21).push(fs[21]));
    lemma_join_push(fs.take(21), fs[21], sep);
    assert(fs.take(23) =~= fs.take(22).push(fs[22]));
    lemma_join_push(fs.take(22), fs[22], sep);
    assert(fs.take(24) =~= fs.take(23).push(fs[23]));
    lemma_join_push(fs.take(23), fs[23], sep);
    assert(fs.take(25) =~= fs.take(24).push(fs[24]));
    lemma_join_push(fs.take(24), fs[24], sep);
    assert(fs.take(26) =~= fs.take(25).push(fs[25]));
    lemma_join_push(fs.take(25), fs[25], sep);
    assert(fs.take(27) =~= fs.take(26).push(fs[26]));
    lemma_join_push(fs.take(26), fs[26], sep);
    assert(fs.take(28) =~= fs.take(27).push(fs[27]));
    lemma_join_push(fs.take(27), fs[27], sep);
    assert(fs.take(29) =~= fs.take(28).push(fs[28]));
    lemma_join_push(fs.take(28), fs[28], sep);
    assert(fs.take(30) =~= fs.take(29).push(fs[29]));
    lemma_join_push(fs.take(29), fs[29], sep);
    assert(fs.take(31) =~= fs.take(30).push(fs[30]));
    lemma_join_push(fs.take(30), fs[30], sep);
    assert(fs.take(32) =~= fs.take(31).push(fs[31]));
    lemma_join_push(fs.take(31), fs[31], sep);
    assert(fs.take(33) =~= fs.take(32).push(fs[32]));
    lemma_join_push(fs.take(32), fs[32], sep);
    assert(fs.take(34) =~= fs.take(33).push(fs[33]));
    lemma_join_push(fs.take(33), fs[33], sep);
    assert(fs.take(35) =~= fs.take(34).push(fs[34]));
    lemma_join_push(fs.take(34), fs[34], sep);
    assert(fs.take(36) =~= fs.take(35).push(fs[35]));
    lemma_join_push(fs.take(35), fs[35], sep);
    assert(fs.take(37) =~= fs.take(36).push(fs[36]));
    lemma_join_push(fs.take(36), fs[36], sep);
    assert(fs.take(38) =~= fs.take(37).push(fs[37]));
    lemma_join_push(fs.take(37), fs[37], sep);
    assert(fs.take(39) =~= fs.take(38).push(fs[38]));
    lemma_join_push(fs.take(38), fs[38], sep);
    assert(fs.take(40) =~= fs.take(39).push(fs[39]));
    lemma_join_push(fs.take(39), fs[39], sep);
    assert(fs.take(41) =~= fs.take(40).push(fs[40]));
    lemma_join_push(fs.take(40), fs[40], sep);
    assert(fs.take(42) =~= fs.take(41).push(fs[41]));
    lemma_join_push(fs.take(41), fs[41], sep);
    assert(fs.take(42) =~= fs);
    assert(spec_join(fs, sep) =~= spec_item_export(it));
    lemma_parse_int_text(it.id);
    lemma_id_text_reads_back(it.product_class);
    lemma_id_text_reads_back(it.revenue_category);
    lemma_id_text_reads_back(it.tax_group);
    lemma_id_text_reads_back(it.security_level);
    lemma_id_text_reads_back(it.report_category);
    lemma_id_text_reads_back(it.item_group);
}

/// The item's amounts are in range and the levels of its prices can be moved
/// up by one.
pub open spec fn spec_item_writable(it: ItemModel) -> bool {
    &&& it.default_price matches Some(d) ==> d.wf()
    &&& it.item_prices matches Some(ps) ==> spec_prices_writable(ps)
    &&& it.weight_amount.wf()
    &&& it.cost_amount matches Some(c) ==> c.wf()
}

fn quoted(t: &str) -> (r: String)
    ensures
        r@ == spec_quoted(t@),
{
    let mut r = text("\"");
    push_str(&mut r, t);
    push_str(&mut r, "\"");
    proof {
        reveal_strlit("\"");
        assert(r@ =~= spec_quoted(t@));
    }
    r
}

fn flag(b: bool) -> (r: String)
    ensures
        r@ == spec_flag(b),
{
    let r = if b {
        text("1")
    } else {
        text("0")
    };
    proof {
        reveal_strlit("1");
        reveal_strlit("0");
        assert(r@ =~= spec_flag(b));
    }
    r
}

fn opt_id_text(o: Option<EntityId>) -> (r: String)
    ensures
        r@ == spec_opt_id_text(o),
{
    match o {
        Some(x) => int_string(x),
        None => int_string(0),
    }
}

pub(crate) fn or_empty(o: &Option<String>) -> (r: String)
    ensures
        r@ == spec_or_empty(match o {
            Some(t) => Some(t@),
            None => None,
        }),
{
    match o {
        Some(t) => t.clone(),
        None => String::new(),
    }
}

/// Joins texts with a separator between each two.
pub(crate) fn join(parts: &Vec<String>, sep: &str) -> (r: String)
    ensures
        r@ == spec_join(parts@.map_values(|p: String| p@), sep@),
{
    let ghost pv = parts@.map_values(|p: String| p@);
    let mut r = String::new();
    let mut i: usize = 0;
    while i < parts.len()
        invariant
            i <= parts@.len(),
            pv == parts@.map_values(|p: String| p@),
            r@ == spec_join(pv.take(i as int), sep@),
        decreases parts.len() - i,
    {
        let ghost before = r@;
        if i > 0 {
            push_str(&mut r, sep);
        }
        push_str(&mut r, parts[i].as_str());
        proof {
            let q = pv.take(i + 1);
            assert(q.drop_last() =~= pv.take(i as int));
            assert(q.last() == parts@[i as int]@);
            if i == 0 {
                assert(r@ =~= q[0]);
            } else {
                assert(r@ =~= spec_join(q.drop_last(), sep@) + sep@ + q.last());
            }
        }
        i += 1;
    }
    proof {
        assert(pv.take(pv.len() as int) =~= pv);
    }
    r
}

/// Writes the record of one item in the item file format.
#[verifier::rlimit(100)]
#[verifier::spinoff_prover]
pub fn item_to_export_string(item: &Item) -> (r: String)
    requires
        spec_item_writable(item@),
    ensures
        r@ == spec_item_export(item@),
{
    let mut r = text("\"A\"");
    let t = int_string(item.id);
    push_str(&mut r, ",");
    push_str(&mut r, t.as_str());
    let t = quoted(item.name.as_str());
    push_str(&mut r, ",");
    push_str(&mut r, t.as_str());
    let t = quoted(item.button1.as_str());
    push_str(&mut r, ",");
    push_str(&mut r, t.as_str());
    let b2 = or_empty(&item.button2);
    let t = quoted(b2.as_str());
    push_str(&mut r, ",");
    push_str(&mut r, t.as_str());
    let t = quoted(item.printer_text.as_str());
    push_str(&mut r, ",");
    push_str(&mut r, t.as_str());
    let t = prepare_item_prices(item.default_price, &item.item_prices);
    push_str(&mut r, ",");
    push_str(&mut r, t.as_str());
    let t = opt_id_text(item.product_class);
    push_str(&mut r, ",");
    push_str(&mut r, t.as_str());
    let t = opt_id_text(item.revenue_category);
    push_str(&mut r, ",");
    push_str(&mut r, t.as_str());
    let t = opt_id_text(item.tax_group);
    push_str(&mut r, ",");
    push_str(&mut r, t.as_str());
    let t = opt_id_text(item.security_level);
    push_str(&mut r, ",");
    push_str(&mut r, t.as_str());
    let t = opt_id_text(item.report_category);
    push_str(&mut r, ",");
    push_str(&mut r, t.as_str());
    let t = flag(item.use_weight);
    push_str(&mut r, ",");
    push_str(&mut r, t.as_str());
    let t = amount_text(item.weight_amount);
    push_str(&mut r, ",");
    push_str(&mut r, t.as_str());
    let t = or_empty(&item.sku);
    push_str(&mut r, ",");
    push_str(&mut r, t.as_str());
    let t = or_empty(&item.bar_gun_code);
    push_str(&mut r, ",");
    push_str(&mut r, t.as_str());
    let t = prepare_item_cost(item.cost_amount);
    push_str(&mut r, ",");
    push_str(&mut r, t.as_str());
    let t = flag(false);
    push_str(&mut r, ",");
    push_str(&mut r, t.as_str());
    let t = flag(item.ask_price);
    push_str(&mut r, ",");
    push_str(&mut r, t.as_str());
    let t = flag(item.print_on_check);
    push_str(&mut r, ",");
    push_str(&mut r, t.as_str());
    let t = flag(item.discountable);
    push_str(&mut r, ",");
    push_str(&mut r, t.as_str());
    let t = flag(item.voidable);
    push_str(&mut r, ",");
    push_str(&mut r, t.as_str());
    let t = flag(item.not_active);
    push_str(&mut r, ",");
    push_str(&mut r, t.as_str());
    let t = flag(item.tax_included);
    push_str(&mut r, ",");
    push_str(&mut r, t.as_str());
    let t = opt_id_text(item.item_group);
    push_str(&mut r, ",");
    push_str(&mut r, t.as_str());
    let t = quoted(item.customer_receipt.as_str());
    push_str(&mut r, ",");
    push_str(&mut r, t.as_str());
    let t = flag(item.allow_price_override);
    push_str(&mut r, ",");
    push_str(&mut r, t.as_str());
    let t = flag(false);
    push_str(&mut r, ",");
    push_str(&mut r, t.as_str());
    let t = prepare_choice_groups(&item.choice_groups);
    push_str(&mut r, ",");
    push_str(&mut r, t.as_str());
    let t = prepare_kitchen_printers(&item.printer_logicals);
    push_str(&mut r, ",");
    push_str(&mut r, t.as_str());
    let t = int_string(item.covers);
    push_str(&mut r, ",");
    push_str(&mut r, t.as_str());
    let t = int_string(item.store_id);
    push_str(&mut r, ",");
    push_str(&mut r, t.as_str());
    let t = quoted(item.kitchen_video.as_str());
    push_str(&mut r, ",");
    push_str(&mut r, t.as_str());
    let t = int_string(item.kds_dept);
    push_str(&mut r, ",");
    push_str(&mut r, t.as_str());
    let t = item.kds_category.clone();
    push_str(&mut r, ",");
    push_str(&mut r, t.as_str());
    let t = int_string(item.kds_cooktime);
    push_str(&mut r, ",");
    push_str(&mut r, t.as_str());
    let t = text("{}");
    push_str(&mut r, ",");
    push_str(&mut r, t.as_str());
    let t = int_string(item.image_id);
    push_str(&mut r, ",");
    push_str(&mut r, t.as_str());
    let t = flag(item.stock_item);
    push_str(&mut r, ",");
    push_str(&mut r, t.as_str());
    let lang = crate::text::chars_of(item.language_iso_code.as_str());
    let t = if lang.len() > 0 {
        item.language_iso_code.clone()
    } else {
        text("\"\"")
    };
    push_str(&mut r, ",");
    push_str(&mut r, t.as_str());
    let t = flag(false);
    push_str(&mut r, ",");
    push_str(&mut r, t.as_str());
    let t = text("\"\"");
    push_str(&mut r, ",");
    push_str(&mut r, t.as_str());
    r
}

/// The item file: the records of the items, one per line.
pub open spec fn spec_item_file(items: Seq<ItemModel>) -> Seq<char> {
    spec_join(items.map_values(|it: ItemModel| spec_item_export(it)), seq!['\n'])
}

/// Writes the item file for the items, one record per line.
pub fn prepare_item_export(items: &[Item]) -> (r: String)
    requires
        forall|k: int| 0 <= k < items@.len() ==> spec_item_writable(#[trigger] items@[k]@),
    ensures
        r@ == spec_item_file(items@.map_values(|it: Item| it@)),
{
    let mut lines: Vec<String> = Vec::new();
    let mut i: usize = 0;
    while i < items.len()
        invariant
            i <= items@.len(),
            forall|k: int| 0 <= k < items@.len() ==> spec_item_writable(#[trigger] items@[k]@),
            lines@.len() == i,
            forall|k: int| 0 <= k < i ==> #[trigger] lines@[k]@ == spec_item_export(items@[k]@),
        decreases items.len() - i,
    {
        lines.push(item_to_export_string(&items[i]));
        i += 1;
    }
    let r = join(&lines, "\n");
    proof {
        reveal_strlit("\n");
        assert("\n"@ =~= seq!['\n']);
        assert(lines@.map_values(|p: String| p@) =~= items@.map_values(|it: Item| it@).map_values(
            |it: ItemModel| spec_item_export(it),
        ));
    }
    r
}


// ---------------------------------------------------------------------
// Reading written lists back
// ---------------------------------------------------------------------

/// The texts of a list of entries, in order: each entry's number, then its
/// second text.
pub open spec fn spec_entry_texts(ps: Seq<(i32, Seq<char>)>) -> Seq<Seq<char>>
    decreases ps.len(),
{
    if ps.len() == 0 {
        Seq::empty()
    } else {
        spec_entry_texts(ps.drop_last()).push(spec_int_text(ps.last().0 as int)).push(ps.last().1)
    }
}

/// The numbers of a list of pairs, in order: each pair's first number, then
/// its second.
pub open spec fn spec_flat_pairs(ps: Seq<(i32, i32)>) -> Seq<i32>
    decreases ps.len(),
{
    if ps.len() == 0 {
        Seq::empty()
    } else {
        spec_flat_pairs(ps.drop_last()).push(ps.last().0).push(ps.last().1)
    }
}

/// A text with every comma turned into the unit separator.
pub open spec fn spec_commas_masked(s: Seq<char>) -> Seq<char> {
    s.map_values(|c: char| if c == ',' { UNIT_SEPARATOR } else { c })
}

proof fn lemma_entries_joined(ps: Seq<(i32, Seq<char>)>)
    requires
        ps.len() > 0,
    ensures
        spec_pair_entries(ps) == spec_join(spec_entry_texts(ps), seq![',']) + seq![','],
        spec_entry_texts(ps).len() == 2 * ps.len(),
    decreases ps.len(),
{
    let d = ps.drop_last();
    let t = spec_entry_texts(ps);
    let td = spec_entry_texts(d);
    let x = spec_int_text(ps.last().0 as int);
    let y = ps.last().1;
    assert(t == td.push(x).push(y));
    assert(t.drop_last() == td.push(x));
    assert(td.push(x).drop_last() == td);
    assert(spec_join(t, seq![',']) == spec_join(td.push(x), seq![',']) + seq![','] + y);
    assert(spec_pair_entries(ps) == spec_pair_entries(d) + x + seq![','] + y + seq![',']);
    if d.len() == 0 {
        assert(td.len() == 0);
        assert(td.push(x).len() == 1);
        assert(spec_join(td.push(x), seq![',']) == td.push(x)[0]);
        assert(spec_pair_entries(d) == Seq::<char>::empty());
        assert(spec_pair_entries(ps) =~= spec_join(t, seq![',']) + seq![',']);
    } else {
        lemma_entries_joined(d);
        assert(spec_join(td.push(x), seq![',']) == spec_join(td, seq![',']) + seq![','] + x);
        assert(spec_pair_entries(ps) =~= spec_join(t, seq![',']) + seq![',']);
    }
}

proof fn lemma_entry_texts_at(ps: Seq<(i32, Seq<char>)>)
    ensures
        spec_entry_texts(ps).len() == 2 * ps.len(),
        forall|k: int| 0 <= k < ps.len() ==> spec_entry_texts(ps)[2 * k] == spec_int_text((#[trigger] ps[k]).0 as int)
            && spec_entry_texts(ps)[2 * k + 1] == ps[k].1,
    decreases ps.len(),
{
    if ps.len() > 0 {
        let d = ps.drop_last();
        lemma_entry_texts_at(d);
        let t = spec_entry_texts(ps);
        let td = spec_entry_texts(d);
        assert(t == td.push(spec_int_text(ps.last().0 as int)).push(ps.last().1));
        assert forall|k: int| 0 <= k < ps.len() implies t[2 * k] == spec_int_text((#[trigger] ps[k]).0 as int) && t[2 * k
            + 1] == ps[k].1 by {
            if k < d.len() {
                assert(d[k] == ps[k]);
                assert(td[2 * k] == spec_int_text(d[k].0 as int) && td[2 * k + 1] == d[k].1);
                assert(t[2 * k] == td[2 * k]);
                assert(t[2 * k + 1] == td[2 * k + 1]);
            } else {
                assert(k == d.len());
                assert(ps[k] == ps.last());
            }
        }
    }
}

proof fn lemma_flat_pairs_at(ps: Seq<(i32, i32)>)
    ensures
        spec_flat_pairs(ps).len() == 2 * ps.len(),
        forall|k: int| 0 <= k < ps.len() ==> spec_flat_pairs(ps)[2 * k] == (#[trigger] ps[k]).0
            && spec_flat_pairs(ps)[2 * k + 1] == ps[k].1,
    decreases ps.len(),
{
    if ps.len() > 0 {
        let d = ps.drop_last();
        lemma_flat_pairs_at(d);
        let f = spec_flat_pairs(ps);
        let fd = spec_flat_pairs(d);
        assert(f == fd.push(ps.last().0).push(ps.last().1));
        assert forall|k: int| 0 <= k < ps.len() implies f[2 * k] == (#[trigger] ps[k]).0 && f[2 * k + 1]
            == ps[k].1 by {
            if k < d.len() {
                assert(d[k] == ps[k]);
                assert(fd[2 * k] == d[k].0 && fd[2 * k + 1] == d[k].1);
                assert(f[2 * k] == fd[2 * k]);
                assert(f[2 * k + 1] == fd[2 * k + 1]);
            } else {
                assert(k == d.len());
                assert(ps[k] == ps.last());
            }
        }
    }
}

proof fn lemma_trim_end_one(s: Seq<char>, c: char)
    requires
        s.len() > 0,
        s.last() != c,
    ensures
        spec_trim_end_char(s.push(c), c) == s,
{
    assert(s.push(c).drop_last() == s);
    assert(s.push(c).last() == c);
    assert(spec_trim_end_char(s, c) == s);
    assert(spec_trim_end_char(s.push(c), c) == spec_trim_end_char(s, c));
}

proof fn lemma_mask_inside(j: Seq<char>)
    requires
        forall|i: int| 0 <= i < j.len() ==> j[i] != '{' && j[i] != '}',
    ensures
        spec_mask_from(j + seq!['}'], true) == spec_commas_masked(j) + seq!['}'],
    decreases j.len(),
{
    if j.len() == 0 {
        assert(j + seq!['}'] =~= seq!['}']);
        assert(seq!['}'].drop_first() =~= Seq::<char>::empty());
        assert(spec_mask_from(Seq::<char>::empty(), false) == Seq::<char>::empty());
        assert(spec_mask_from(seq!['}'], true) == seq![spec_mask_char('}', true)] + spec_mask_from(
            Seq::<char>::empty(),
            false,
        ));
        assert(spec_mask_from(seq!['}'], true) =~= seq!['}']);
        assert(spec_commas_masked(j) + seq!['}'] =~= seq!['}']);
    } else {
        let rest = j.drop_first();
        assert forall|i: int| 0 <= i < rest.len() implies rest[i] != '{' && rest[i] != '}' by {
            assert(rest[i] == j[i + 1]);
        }
        assert((j + seq!['}']).drop_first() =~= rest + seq!['}']);
        assert((j + seq!['}'])[0] == j[0]);
        lemma_mask_inside(rest);
        assert(spec_commas_masked(j) =~= seq![spec_mask_char(j[0], true)] + spec_commas_masked(rest));
        assert(spec_mask_from(j + seq!['}'], true) == seq![spec_mask_char(j[0], true)] + spec_mask_from(
            rest + seq!['}'],
            true,
        ));
        assert(spec_mask_from(j + seq!['}'], true) =~= spec_commas_masked(j) + seq!['}']);
    }
}

proof fn lemma_masked_join(t: Seq<Seq<char>>)
    requires
        t.len() > 0,
        forall|k: int| 0 <= k < t.len() ==> !(#[trigger] t[k]).contains(','),
    ensures
        spec_commas_masked(spec_join(t, seq![','])) == spec_join(t, seq![UNIT_SEPARATOR]),
    decreases t.len(),
{
    let last = t.last();
    assert(!last.contains(','));
    assert(spec_commas_masked(last) =~= last) by {
        assert forall|i: int| 0 <= i < last.len() implies last[i] != ',' by {
            if last[i] == ',' {
                assert(last.contains(','));
            }
        }
    }
    if t.len() == 1 {
        assert(spec_join(t, seq![',']) == t[0]);
        assert(spec_join(t, seq![UNIT_SEPARATOR]) == t[0]);
    } else {
        let d = t.drop_last();
        assert forall|k: int| 0 <= k < d.len() implies !(#[trigger] d[k]).contains(',') by {
            assert(d[k] == t[k]);
        }
        lemma_masked_join(d);
        let a = spec_join(d, seq![',']);
        assert(spec_commas_masked(a + seq![','] + last) =~= spec_commas_masked(a) + seq![UNIT_SEPARATOR]
            + spec_commas_masked(last));
    }
}

proof fn lemma_split_joined(t: Seq<Seq<char>>)
    requires
        t.len() > 0,
        forall|k: int| 0 <= k < t.len() ==> !(#[trigger] t[k]).contains(UNIT_SEPARATOR),
    ensures
        spec_split(spec_join(t, seq![UNIT_SEPARATOR]), UNIT_SEPARATOR) == t,
    decreases t.len(),
{
    if t.len() == 1 {
        assert(spec_join(t, seq![UNIT_SEPARATOR]) == t[0]);
        assert(!t[0].contains(UNIT_SEPARATOR));
        lemma_first_index_none(t[0], UNIT_SEPARATOR);
        assert(seq![t[0]] =~= t);
    } else {
        lemma_join_front(t, seq![UNIT_SEPARATOR]);
        let rest = t.drop_first();
        assert forall|k: int| 0 <= k < rest.len() implies !(#[trigger] rest[k]).contains(UNIT_SEPARATOR) by {
            assert(rest[k] == t[k + 1]);
        }
        lemma_split_joined(rest);
        let x = t[0];
        let y = spec_join(rest, seq![UNIT_SEPARATOR]);
        let s = x + seq![UNIT_SEPARATOR] + y;
        assert(!x.contains(UNIT_SEPARATOR));
        assert(s.take(x.len() as int) =~= x);
        assert(s[x.len() as int] == UNIT_SEPARATOR);
        lemma_first_index_at(s, UNIT_SEPARATOR, x.len() as int);
        assert(s.skip(x.len() as int + 1) =~= y);
        assert(seq![x] + rest =~= t);
    }
}

proof fn lemma_parsed_int_texts(t: Seq<Seq<char>>, v: Seq<i32>)
    requires
        t.len() == v.len(),
        forall|k: int| 0 <= k < t.len() ==> #[trigger] t[k] == spec_int_text(v[k] as int),
    ensures
        spec_parsed_ints(t) == v,
    decreases t.len(),
{
    if t.len() > 0 {
        lemma_parsed_int_texts(t.drop_last(), v.drop_last());
        lemma_trim_int_text(v.last() as int);
        lemma_parse_int_text(v.last());
        assert(t.last() == spec_int_text(v.last() as int));
        assert(v.drop_last().push(v.last()) =~= v);
    }
}

/// The texts of numbers hold no comma, brace or unit separator.
proof fn lemma_number_texts_plain(t: Seq<Seq<char>>, v: Seq<i32>)
    requires
        t.len() == v.len(),
        forall|k: int| 0 <= k < t.len() ==> #[trigger] t[k] == spec_int_text(v[k] as int),
    ensures
        forall|k: int| 0 <= k < t.len() ==> !(#[trigger] t[k]).contains(',') && !t[k].contains(UNIT_SEPARATOR)
            && t[k].len() > 0,
        forall|k: int, i: int| 0 <= k < t.len() && 0 <= i < t[k].len() ==> #[trigger] t[k][i] != '{' && t[k][i] != '}',
        t.len() > 0 ==> spec_is_digit(t.last().last()),
        t.len() > 0 ==> t[0][0] != '{',
{
    assert forall|k: int| 0 <= k < t.len() implies !(#[trigger] t[k]).contains(',') && !t[k].contains(
        UNIT_SEPARATOR,
    ) && t[k].len() > 0 by {
        lemma_int_text_shape(v[k] as int);
        if t[k].contains(',') {
            let i = choose|i: int| 0 <= i < t[k].len() && t[k][i] == ',';
        }
        if t[k].contains(UNIT_SEPARATOR) {
            let i = choose|i: int| 0 <= i < t[k].len() && t[k][i] == UNIT_SEPARATOR;
        }
    }
    assert forall|k: int, i: int| 0 <= k < t.len() && 0 <= i < t[k].len() implies #[trigger] t[k][i] != '{'
        && t[k][i] != '}' by {
        lemma_int_text_shape(v[k] as int);
    }
    if t.len() > 0 {
        lemma_int_text_shape(v[t.len() - 1] as int);
        lemma_int_text_shape(v[0] as int);
    }
}

/// Reading back a written list: the numbers of a braced list, written by
/// `spec_braced` from entries whose texts are the numbers `v`, are `v`.
proof fn lemma_braced_numbers_read_back(ps: Seq<(i32, Seq<char>)>, v: Seq<i32>)
    requires
        ps.len() > 0,
        spec_entry_texts(ps).len() == v.len(),
        forall|k: int| 0 <= k < v.len() ==> #[trigger] spec_entry_texts(ps)[k] == spec_int_text(v[k] as int),
    ensures
        spec_braced_numbers(spec_mask_braced_commas(spec_braced(spec_pair_entries(ps)))) == v,
{
    let t = spec_entry_texts(ps);
    lemma_entries_joined(ps);
    lemma_number_texts_plain(t, v);
    let j = spec_join(t, seq![',']);
    lemma_join_shape(t);
    assert(seq!['{'] + spec_pair_entries(ps) =~= (seq!['{'] + j).push(','));
    lemma_trim_end_one(seq!['{'] + j, ',');
    let b = seq!['{'] + j + seq!['}'];
    assert(spec_braced(spec_pair_entries(ps)) =~= b);
    assert(b.drop_first() =~= j + seq!['}']);
    lemma_join_no_brace(t);
    lemma_mask_inside(j);
    let m = spec_commas_masked(j);
    assert(spec_mask_braced_commas(b) =~= seq!['{'] + m + seq!['}']);
    lemma_masked_join(t);
    lemma_join_shape(t);
    assert(m.len() == j.len());
    lemma_int_text_shape(v[0] as int);
    lemma_int_text_shape(v[v.len() - 1] as int);
    assert(t[0] == spec_int_text(v[0] as int));
    assert(t.last() == spec_int_text(v[v.len() - 1] as int));
    assert(j[0] != ',');
    assert(m[0] == j[0]);
    assert(j.last() != ',');
    assert(m[m.len() - 1] == j[j.len() - 1]);
    let mb = seq!['{'] + m + seq!['}'];
    assert(mb.drop_first() =~= m + seq!['}']);
    assert((m + seq!['}'])[0] == m[0]);
    assert(spec_trim_start_char(m + seq!['}'], '{') == m + seq!['}']);
    assert(spec_trim_start_char(mb, '{') == m + seq!['}']);
    assert(m + seq!['}'] =~= m.push('}'));
    lemma_trim_end_one(m, '}');
    assert(spec_trim_end_char(m + seq!['}'], '}') == m);
    lemma_split_joined(t);
    lemma_parsed_int_texts(t, v);
}

proof fn lemma_join_no_brace(t: Seq<Seq<char>>)
    requires
        t.len() > 0,
        forall|k: int, i: int| 0 <= k < t.len() && 0 <= i < t[k].len() ==> #[trigger] t[k][i] != '{' && t[k][i] != '}',
    ensures
        forall|i: int| 0 <= i < spec_join(t, seq![',']).len() ==> #[trigger] spec_join(t, seq![','])[i] != '{'
            && spec_join(t, seq![','])[i] != '}',
    decreases t.len(),
{
    if t.len() == 1 {
        assert(spec_join(t, seq![',']) == t[0]);
        assert forall|i: int| 0 <= i < t[0].len() implies #[trigger] t[0][i] != '{' && t[0][i] != '}' by {}
    } else {
        let d = t.drop_last();
        assert forall|k: int, i: int| 0 <= k < d.len() && 0 <= i < d[k].len() implies #[trigger] d[k][i] != '{'
            && d[k][i] != '}' by {
            assert(d[k] == t[k]);
        }
        lemma_join_no_brace(d);
        let a = spec_join(d, seq![',']);
        let l = t.last();
        let j = spec_join(t, seq![',']);
        assert(j == a + seq![','] + l);
        assert forall|i: int| 0 <= i < j.len() implies #[trigger] j[i] != '{' && j[i] != '}' by {
            if i < a.len() {
                assert(j[i] == a[i]);
            } else if i == a.len() {
                assert(j[i] == ',');
            } else {
                assert(j[i] == l[i - a.len() - 1]);
                assert(t[t.len() - 1] == l);
                assert(t[t.len() - 1][i - a.len() - 1] != '{');
            }
        }
    }
}

/// A join of plain number texts starts with the first text's first
/// character and ends with the last text's last character.
proof fn lemma_join_shape(t: Seq<Seq<char>>)
    requires
        t.len() > 0,
        forall|k: int| 0 <= k < t.len() ==> (#[trigger] t[k]).len() > 0,
    ensures
        spec_join(t, seq![',']).len() > 0,
        spec_join(t, seq![','])[0] == t[0][0],
        spec_join(t, seq![',']).last() == t.last().last(),
        spec_join(t, seq![UNIT_SEPARATOR]).len() == spec_join(t, seq![',']).len(),
    decreases t.len(),
{
    if t.len() > 1 {
        let d = t.drop_last();
        assert forall|k: int| 0 <= k < d.len() implies (#[trigger] d[k]).len() > 0 by {
            assert(d[k] == t[k]);
        }
        lemma_join_shape(d);
        assert(d[0] == t[0]);
    }
}

/// Reading back the choice groups an item was written with gives them, and
/// an item written without any reads back without any.
pub proof fn lemma_choice_groups_read_back(o: Option<Seq<(i32, i32)>>)
    ensures
        spec_parse_choice_groups(spec_mask_braced_commas(spec_prepare_choice_groups(o))) == match o {
            Some(gs) => if gs.len() > 0 {
                Some(gs)
            } else {
                None
            },
            None => None,
        },
{
    match o {
        Some(gs) if gs.len() > 0 => {
            let es = spec_choice_entries(gs);
            let v = spec_flat_pairs(gs);
            lemma_entry_texts_at(es);
            lemma_flat_pairs_at(gs);
            assert forall|k: int| 0 <= k < v.len() implies #[trigger] spec_entry_texts(es)[k] == spec_int_text(
                v[k] as int,
            ) by {
                let q = k / 2;
                assert(0 <= q < gs.len());
                assert(es[q] == (gs[q].0, spec_int_text(gs[q].1 as int)));
                assert(spec_entry_texts(es)[2 * q] == spec_int_text(es[q].0 as int) && spec_entry_texts(es)[2 * q
                    + 1] == es[q].1);
                assert(v[2 * q] == gs[q].0 && v[2 * q + 1] == gs[q].1);
                if k % 2 == 0 {
                    assert(k == 2 * q);
                } else {
                    assert(k == 2 * q + 1);
                }
            }
            lemma_braced_numbers_read_back(es, v);
            assert(spec_pairs(v) =~= gs);
        },
        _ => {
            lemma_empty_list_read_back();
        },
    }
}

proof fn lemma_empty_list_read_back()
    ensures
        spec_pairs(spec_braced_numbers(spec_mask_braced_commas("{}"@))).len() == 0,
        spec_braced(Seq::empty()) == "{}"@,
{
    reveal_strlit("{}");
    let e = seq!['{', '}'];
    assert("{}"@ == e);
    assert(spec_trim_end_char(seq!['{'], ',') == seq!['{']);
    assert(spec_braced(Seq::empty()) =~= e);
    assert(e.drop_first() =~= seq!['}']);
    assert(seq!['}'].drop_first() =~= Seq::<char>::empty());
    assert(spec_mask_from(Seq::<char>::empty(), false) == Seq::<char>::empty());
    assert(spec_mask_from(seq!['}'], true) == seq![spec_mask_char('}', true)] + spec_mask_from(
        Seq::<char>::empty(),
        false,
    ));
    assert(spec_mask_from(seq!['}'], true) =~= seq!['}']);
    assert(spec_mask_from(e, false) == seq![spec_mask_char('{', false)] + spec_mask_from(seq!['}'], true));
    assert(spec_mask_braced_commas(e) =~= e);
    assert(spec_trim_start_char(seq!['}'], '{') == seq!['}']);
    assert(spec_trim_start_char(e, '{') == spec_trim_start_char(seq!['}'], '{'));
    assert(spec_trim_start_char(e, '{') =~= seq!['}']);
    assert(seq!['}'].drop_last() =~= Seq::<char>::empty());
    assert(seq!['}'].last() == '}');
    assert(spec_trim_end_char(Seq::<char>::empty(), '}') == Seq::<char>::empty());
    assert(spec_trim_end_char(seq!['}'], '}') == spec_trim_end_char(seq!['}'].drop_last(), '}'));
    assert(spec_trim_end_char(seq!['}'], '}') =~= Seq::<char>::empty());
    lemma_first_index_none(Seq::<char>::empty(), UNIT_SEPARATOR);
    let parts = spec_split(Seq::<char>::empty(), UNIT_SEPARATOR);
    assert(parts == seq![Seq::<char>::empty()]);
    assert(spec_trim(Seq::<char>::empty()) == Seq::<char>::empty());
    assert(spec_parsed_ints(parts.drop_last()) == Seq::<i32>::empty());
}

/// Reading back the kitchen printers an item was written with gives them,
/// and an item written without any reads back without any.
pub proof fn lemma_kitchen_printers_read_back(o: Option<Seq<(i32, bool)>>)
    ensures
        spec_parse_printer_logicals(spec_mask_braced_commas(spec_prepare_kitchen_printers(o))) == match o {
            Some(ps) => if ps.len() > 0 {
                Some(ps)
            } else {
                None
            },
            None => None,
        },
{
    match o {
        Some(ps) if ps.len() > 0 => {
            let es = spec_printer_entries(ps);
            let nums = ps.map_values(|p: (i32, bool)| (p.0, if p.1 { 1i32 } else { 0i32 }));
            let v = spec_flat_pairs(nums);
            lemma_entry_texts_at(es);
            lemma_flat_pairs_at(nums);
            reveal_with_fuel(spec_nat_text, 1);
            assert(spec_int_text(1) == seq!['1']);
            assert(spec_int_text(0) == seq!['0']);
            assert forall|k: int| 0 <= k < v.len() implies #[trigger] spec_entry_texts(es)[k] == spec_int_text(
                v[k] as int,
            ) by {
                let q = k / 2;
                assert(0 <= q < ps.len());
                assert(es[q] == (ps[q].0, spec_flag(ps[q].1)));
                assert(nums[q] == (ps[q].0, if ps[q].1 { 1i32 } else { 0i32 }));
                assert(spec_entry_texts(es)[2 * q] == spec_int_text(es[q].0 as int) && spec_entry_texts(es)[2 * q
                    + 1] == es[q].1);
                assert(v[2 * q] == nums[q].0 && v[2 * q + 1] == nums[q].1);
                if k % 2 == 0 {
                    assert(k == 2 * q);
                } else {
                    assert(k == 2 * q + 1);
                }
            }
            lemma_braced_numbers_read_back(es, v);
            assert(spec_pairs(v) =~= nums);
            assert(nums.map_values(|q: (i32, i32)| (q.0, q.1 != 0)) =~= ps);
        },
        _ => {
            lemma_empty_list_read_back();
        },
    }
}

} // verus!
