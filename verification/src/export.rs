//! Serialization of the roster to a flat tabular text: one header line, then
//! one comma-joined line per record in roster order, each line closed by a
//! line break. The credential is exported in its hashed form only; the last
//! access, when present, is rendered as an RFC 2822 timestamp and as an
//! empty field when absent.

use vstd::prelude::*;
use crate::clock::{format_rfc2822, rfc2822_of};
use crate::hashing::{hex_digit, hex_of, lemma_hex_of_digits};
use crate::record::PersonRecord;
use crate::roster::Roster;
use crate::text::{
    count_char, dec_digit, dec_of, lemma_count_char_absent, lemma_count_char_concat,
    lemma_count_char_single,
    lemma_dec_of_digits, u32_to_decimal,
};

verus! {

/// The header line, without its closing line break.
pub open spec fn spec_header() -> Seq<char> {
    "Nom, Prénom, Numéro de badge, Code secret, Dernier passage"@
}

/// The fifth field of a data line: the RFC 2822 rendering of the last
/// access, or nothing when none is recorded.
pub open spec fn spec_last_access_field(last_access: Option<i64>) -> Seq<char> {
    match last_access {
        Some(t) => rfc2822_of(t as int),
        None => Seq::<char>::empty(),
    }
}

/// One data line, without its closing line break: the five fields joined by
/// commas.
pub open spec fn spec_line(r: PersonRecord) -> Seq<char> {
    r.last_name@ + seq![','] + r.first_name@ + seq![','] + dec_of(r.badge_id as int) + seq![',']
        + r.credential_hash@ + seq![','] + spec_last_access_field(r.last_access)
}

/// The data lines of a roster in order, each closed by a line break.
pub open spec fn spec_body(rs: Seq<PersonRecord>) -> Seq<char>
    decreases rs.len(),
{
    if rs.len() == 0 {
        Seq::<char>::empty()
    } else {
        spec_line(rs.first()) + seq!['\n'] + spec_body(rs.drop_first())
    }
}

/// The whole export text: the header line, then the data lines.
pub open spec fn spec_export(rs: Seq<PersonRecord>) -> Seq<char> {
    spec_header() + seq!['\n'] + spec_body(rs)
}

proof fn lemma_body_take_succ(rs: Seq<PersonRecord>, k: int)
    requires
        0 <= k < rs.len(),
    ensures
        spec_body(rs.take(k + 1)) == spec_body(rs.take(k)) + spec_line(rs[k]) + seq!['\n'],
    decreases k,
{
    if k == 0 {
        assert(rs.take(1).first() == rs[0]);
        assert(rs.take(1).drop_first() =~= Seq::<PersonRecord>::empty());
        assert(rs.take(0) =~= Seq::<PersonRecord>::empty());
        assert(spec_body(rs.take(1)) =~= spec_body(rs.take(0)) + spec_line(rs[0]) + seq!['\n']);
    } else {
        lemma_body_take_succ(rs.drop_first(), k - 1);
        assert(rs.take(k + 1).drop_first() =~= rs.drop_first().take(k));
        assert(rs.take(k).drop_first() =~= rs.drop_first().take(k - 1));
        assert(rs.take(k + 1).first() == rs.first());
        assert(rs.take(k).first() == rs.first());
        assert(rs.drop_first()[k - 1] == rs[k]);
        assert(spec_body(rs.take(k + 1)) =~= spec_body(rs.take(k)) + spec_line(rs[k])
            + seq!['\n']);
    }
}

/// Serialize the roster. The in-memory roster is read only; writing the text
/// anywhere is the caller's business, so a failure there cannot corrupt it.
pub fn export_roster(roster: &Roster) -> (r: String)
    requires
        roster.inv(),
    ensures
        r@ == spec_export(roster@),
{
    let mut out = "Nom, Prénom, Numéro de badge, Code secret, Dernier passage".to_owned();
    out.append("\n");
    proof {
        reveal_strlit("\n");
        assert(roster@.take(0) =~= Seq::<PersonRecord>::empty());
        assert(out@ =~= spec_header() + seq!['\n'] + spec_body(roster@.take(0)));
    }
    let n = roster.len();
    let mut k: usize = 0;
    while k < n
        invariant
            roster.inv(),
            n == roster@.len(),
            k <= n,
            out@ == spec_header() + seq!['\n'] + spec_body(roster@.take(k as int)),
        decreases n - k,
    {
        let rec = roster.get_at(k);
        assert(rec.wf());
        out.append(rec.last_name.as_str());
        out.append(",");
        out.append(rec.first_name.as_str());
        out.append(",");
        let badge = u32_to_decimal(rec.badge_id);
        out.append(badge.as_str());
        out.append(",");
        out.append(rec.credential_hash.as_str());
        out.append(",");
        match rec.last_access {
            Some(t) => {
                let rendered = format_rfc2822(t);
                out.append(rendered.as_str());
            },
            None => {},
        }
        out.append("\n");
        proof {
            lemma_body_take_succ(roster@, k as int);
            reveal_strlit(",");
            reveal_strlit("\n");
            assert(out@ =~= spec_header() + seq!['\n'] + spec_body(roster@.take(k as int + 1)));
        }
        k = k + 1;
    }
    proof {
        assert(roster@.take(n as int) =~= roster@);
    }
    out
}

/// Neither a comma nor a line break occurs in the given text.
pub open spec fn separator_free(s: Seq<char>) -> bool {
    forall|i: int| 0 <= i < s.len() ==> s[i] != ',' && s[i] != '\n'
}

proof fn lemma_header_no_newline()
    ensures
        count_char(spec_header(), '\n') == 0,
{
    reveal_strlit("Nom, Prénom, Numéro de badge, Code secret, Dernier passage");
    assert(forall|i: int|
        0 <= i < spec_header().len() ==> spec_header()[i] != '\n');
    lemma_count_char_absent(spec_header(), '\n');
}

proof fn lemma_dec_of_separator_free(n: int)
    requires
        n >= 0,
    ensures
        separator_free(dec_of(n)),
{
    lemma_dec_of_digits(n);
    assert forall|i: int| 0 <= i < dec_of(n).len() implies dec_of(n)[i] != ','
        && dec_of(n)[i] != '\n' by {
        let d = choose|d: int| 0 <= d < 10 && dec_of(n)[i] == dec_digit(d);
        assert(dec_digit(d) != ',' && dec_digit(d) != '\n');
    }
}

/// Every stored credential satisfies the separator-freeness the shape lemmas
/// ask of it: a credential is the hexadecimal rendering of a digest, and hex
/// digits are neither commas nor line breaks.
pub proof fn lemma_rendered_digest_separator_free(bytes: Seq<u8>)
    ensures
        separator_free(hex_of(bytes)),
{
    lemma_hex_of_digits(bytes);
    assert forall|i: int| 0 <= i < hex_of(bytes).len() implies hex_of(bytes)[i] != ','
        && hex_of(bytes)[i] != '\n' by {
        let d = choose|d: int| 0 <= d < 16 && hex_of(bytes)[i] == hex_digit(d);
        assert(hex_digit(d) != ',' && hex_digit(d) != '\n');
    }
}

/// The shape of one data line of a record with no recorded access, whose
/// name and credential fields are free of separators: exactly four commas —
/// so the line splits into exactly five comma-separated fields — no line
/// break, and a trailing comma, the empty fifth field.
pub proof fn lemma_line_shape(r: PersonRecord)
    requires
        r.last_access is None,
        separator_free(r.last_name@),
        separator_free(r.first_name@),
        separator_free(r.credential_hash@),
    ensures
        count_char(spec_line(r), ',') == 4,
        count_char(spec_line(r), '\n') == 0,
        spec_line(r).len() > 0,
        spec_line(r).last() == ',',
{
    let comma = seq![','];
    let a = r.last_name@;
    let b = r.first_name@;
    let c = dec_of(r.badge_id as int);
    let d = r.credential_hash@;
    lemma_dec_of_separator_free(r.badge_id as int);
    assert(spec_last_access_field(r.last_access) =~= Seq::<char>::empty());
    assert(spec_line(r) =~= a + comma + b + comma + c + comma + d + comma);
    lemma_count_char_absent(a, ',');
    lemma_count_char_absent(b, ',');
    lemma_count_char_absent(c, ',');
    lemma_count_char_absent(d, ',');
    lemma_count_char_absent(a, '\n');
    lemma_count_char_absent(b, '\n');
    lemma_count_char_absent(c, '\n');
    lemma_count_char_absent(d, '\n');
    lemma_count_char_single(',', ',');
    lemma_count_char_single(',', '\n');
    lemma_count_char_concat(a, comma, ',');
    lemma_count_char_concat(a + comma, b, ',');
    lemma_count_char_concat(a + comma + b, comma, ',');
    lemma_count_char_concat(a + comma + b + comma, c, ',');
    lemma_count_char_concat(a + comma + b + comma + c, comma, ',');
    lemma_count_char_concat(a + comma + b + comma + c + comma, d, ',');
    lemma_count_char_concat(a + comma + b + comma + c + comma + d, comma, ',');
    lemma_count_char_concat(a, comma, '\n');
    lemma_count_char_concat(a + comma, b, '\n');
    lemma_count_char_concat(a + comma + b, comma, '\n');
    lemma_count_char_concat(a + comma + b + comma, c, '\n');
    lemma_count_char_concat(a + comma + b + comma + c, comma, '\n');
    lemma_count_char_concat(a + comma + b + comma + c + comma, d, '\n');
    lemma_count_char_concat(a + comma + b + comma + c + comma + d, comma, '\n');
}

proof fn lemma_body_line_count(rs: Seq<PersonRecord>)
    requires
        forall|i: int| 0 <= i < rs.len() ==> count_char(#[trigger] spec_line(rs[i]), '\n') == 0,
    ensures
        count_char(spec_body(rs), '\n') == rs.len(),
    decreases rs.len(),
{
    if rs.len() > 0 {
        assert(forall|i: int|
            0 <= i < rs.drop_first().len() ==> #[trigger] spec_line(rs.drop_first()[i])
                == spec_line(rs[i + 1]));
        lemma_body_line_count(rs.drop_first());
        lemma_count_char_single('\n', '\n');
        assert(spec_line(rs.first()) == spec_line(rs[0]));
        lemma_count_char_concat(spec_line(rs.first()), seq!['\n'], '\n');
        lemma_count_char_concat(
            spec_line(rs.first()) + seq!['\n'],
            spec_body(rs.drop_first()),
            '\n',
        );
    }
}

/// Export shape: a roster of N records — each with no recorded access yet
/// and with separator-free name and credential fields — exports as a text of
/// exactly N + 1 line breaks, one closing the header line and one closing
/// each data line; and every data line splits into exactly five
/// comma-separated fields, the fifth one empty.
pub proof fn lemma_export_shape(rs: Seq<PersonRecord>)
    requires
        forall|i: int| 0 <= i < rs.len() ==> (#[trigger] rs[i]).last_access is None,
        forall|i: int| 0 <= i < rs.len() ==> separator_free((#[trigger] rs[i]).last_name@),
        forall|i: int| 0 <= i < rs.len() ==> separator_free((#[trigger] rs[i]).first_name@),
        forall|i: int| 0 <= i < rs.len() ==> separator_free((#[trigger] rs[i]).credential_hash@),
    ensures
        count_char(spec_export(rs), '\n') == rs.len() + 1,
        forall|i: int|
            0 <= i < rs.len() ==> count_char(#[trigger] spec_line(rs[i]), ',') == 4 && count_char(
                spec_line(rs[i]),
                '\n',
            ) == 0 && spec_line(rs[i]).last() == ',',
{
    assert forall|i: int|
        0 <= i < rs.len() implies count_char(#[trigger] spec_line(rs[i]), ',') == 4 && count_char(
        spec_line(rs[i]),
        '\n',
    ) == 0 && spec_line(rs[i]).last() == ',' by {
        lemma_line_shape(rs[i]);
    }
    lemma_body_line_count(rs);
    lemma_header_no_newline();
    lemma_count_char_single('\n', '\n');
    lemma_count_char_concat(spec_header(), seq!['\n'], '\n');
    lemma_count_char_concat(spec_header() + seq!['\n'], spec_body(rs), '\n');
}

} // verus!
