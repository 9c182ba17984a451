use vstd::prelude::*;

verus! {

/// A piece of user-facing text together with the locale it is written in.
/// Only an English text is carried; the `en-US` localization repeats it.
#[derive(Clone, Copy)]
pub struct LocalizedString {
    pub en: &'static str,
}

/// Character-by-character equality of two string slices.
pub fn str_eq(a: &str, b: &str) -> (r: bool)
    ensures
        r == (a@ == b@),
{
    let n = a.unicode_len();
    let m = b.unicode_len();
    if n != m {
        proof {
            assert(a@ != b@) by {
                assert(a@.len() != b@.len());
            }
        }
        return false;
    }
    let mut i: usize = 0;
    while i < n
        invariant
            n == a@.len(),
            n == b@.len(),
            0 <= i <= n,
            forall|j: int| 0 <= j < i ==> a@[j] == b@[j],
        decreases n - i,
    {
        if a.get_char(i) != b.get_char(i) {
            return false;
        }
        i += 1;
    }
    proof {
        assert(a@ =~= b@);
    }
    true
}

impl LocalizedString {
    /// True exactly when the given string equals the text in some locale
    /// (here: the English text, which every locale repeats).
    pub fn any_eq(&self, s: &str) -> (r: bool)
        ensures
            r == (self.en@ == s@),
    {
        str_eq(self.en, s)
    }
}

/// The character for a single decimal digit.
pub open spec fn digit_char(d: nat) -> char {
    if d == 0 {
        '0'
    } else if d == 1 {
        '1'
    } else if d == 2 {
        '2'
    } else if d == 3 {
        '3'
    } else if d == 4 {
        '4'
    } else if d == 5 {
        '5'
    } else if d == 6 {
        '6'
    } else if d == 7 {
        '7'
    } else if d == 8 {
        '8'
    } else {
        '9'
    }
}

/// The decimal digits of a number, most significant first, no sign and no
/// leading zeros (a lone zero for the number zero).
pub open spec fn dec_of(n: nat) -> Seq<char>
    decreases n,
{
    if n < 10 {
        seq![digit_char(n)]
    } else {
        dec_of(n / 10).push(digit_char(n % 10))
    }
}

fn digit_str(d: u64) -> (r: &'static str)
    requires
        d < 10,
    ensures
        r@ == seq![digit_char(d as nat)],
{
    let s: &'static str = if d == 0 {
        "0"
    } else if d == 1 {
        "1"
    } else if d == 2 {
        "2"
    } else if d == 3 {
        "3"
    } else if d == 4 {
        "4"
    } else if d == 5 {
        "5"
    } else if d == 6 {
        "6"
    } else if d == 7 {
        "7"
    } else if d == 8 {
        "8"
    } else {
        "9"
    };
    proof {
        reveal_strlit("0");
        reveal_strlit("1");
        reveal_strlit("2");
        reveal_strlit("3");
        reveal_strlit("4");
        reveal_strlit("5");
        reveal_strlit("6");
        reveal_strlit("7");
        reveal_strlit("8");
        reveal_strlit("9");
        assert(s@ =~= seq![digit_char(d as nat)]);
    }
    s
}

/// Renders a number in decimal, as the platform's numeric identifiers are
/// written into mentions and fields.
pub fn u64_to_dec(n: u64) -> (r: String)
    ensures
        r@ == dec_of(n as nat),
    decreases n,
{
    if n < 10 {
        String::from_str(digit_str(n))
    } else {
        let prefix = u64_to_dec(n / 10);
        let r = prefix.concat(digit_str(n % 10));
        proof {
            assert(r@ =~= dec_of(n as nat));
        }
        r
    }
}

/// A run of zero characters.
pub open spec fn zeros(k: nat) -> Seq<char>
    decreases k,
{
    if k == 0 {
        Seq::empty()
    } else {
        seq!['0'] + zeros((k - 1) as nat)
    }
}

/// A number in decimal, left-padded with zeros to at least four characters.
pub open spec fn zero_padded4(n: nat) -> Seq<char> {
    if dec_of(n).len() >= 4 {
        dec_of(n)
    } else {
        zeros((4 - dec_of(n).len()) as nat) + dec_of(n)
    }
}

/// Renders a number zero-padded to four characters, the way user
/// discriminators are displayed.
pub fn u64_to_dec_pad4(n: u64) -> (r: String)
    ensures
        r@ == zero_padded4(n as nat),
{
    proof {
        reveal_strlit("0");
        reveal_strlit("00");
        reveal_strlit("000");
        assert(zeros(0) =~= Seq::<char>::empty());
        assert(zeros(1) =~= seq!['0']);
        assert(zeros(2) =~= seq!['0'] + zeros(1));
        assert(zeros(3) =~= seq!['0'] + zeros(2));
    }
    if n < 10 {
        let r = String::from_str("000").concat(u64_to_dec(n).as_str());
        proof {
            assert(dec_of(n as nat).len() == 1);
            assert("000"@ =~= zeros(3));
            assert(r@ =~= zero_padded4(n as nat));
        }
        r
    } else if n < 100 {
        let r = String::from_str("00").concat(u64_to_dec(n).as_str());
        proof {
            assert(dec_of(n as nat).len() == 2) by {
                assert(dec_of(n as nat) == dec_of(n as nat / 10).push(digit_char(n as nat % 10)));
                assert(dec_of(n as nat / 10).len() == 1);
            }
            assert("00"@ =~= zeros(2));
            assert(r@ =~= zero_padded4(n as nat));
        }
        r
    } else if n < 1000 {
        let r = String::from_str("0").concat(u64_to_dec(n).as_str());
        proof {
            assert(dec_of(n as nat).len() == 3) by {
                assert(dec_of(n as nat) == dec_of(n as nat / 10).push(digit_char(n as nat % 10)));
                assert(dec_of(n as nat / 10) == dec_of(n as nat / 100).push(
                    digit_char(n as nat / 10 % 10),
                ));
                assert(dec_of(n as nat / 100).len() == 1);
            }
            assert("0"@ =~= zeros(1));
            assert(r@ =~= zero_padded4(n as nat));
        }
        r
    } else {
        let r = u64_to_dec(n);
        proof {
            assert(dec_of(n as nat).len() >= 4) by {
                assert(pow10_at_least(1, 1));
                assert(pow10_at_least(10, 2));
                assert(pow10_at_least(100, 3));
                assert(pow10_at_least(1000, 4));
                lemma_dec_of_len_ge(n as nat, 1000, 4);
            }
        }
        r
    }
}

proof fn lemma_dec_of_len_ge(n: nat, bound: nat, k: nat)
    requires
        n >= bound,
        bound >= 1,
        pow10_at_least(bound, k),
    ensures
        dec_of(n).len() >= k,
    decreases k,
{
    if k <= 1 {
    } else {
        assert(bound >= 10);
        lemma_dec_of_len_ge(n / 10, bound / 10, (k - 1) as nat);
    }
}

/// True when `bound` is at least ten to the `k - 1`.
pub open spec fn pow10_at_least(bound: nat, k: nat) -> bool
    decreases k,
{
    if k <= 1 {
        bound >= 1
    } else {
        bound >= 10 && pow10_at_least(bound / 10, (k - 1) as nat)
    }
}

/// What lowercasing a sequence of characters yields. The result depends on
/// the characters alone; its exact value is settled by the Unicode tables
/// that `str::to_lowercase` applies.
pub uninterp spec fn lower_of(s: Seq<char>) -> Seq<char>;

/// Relies on str::to_lowercase: the lowercase equivalent of the string,
/// a function of its characters alone; an empty string stays empty.
#[verifier::external_body]
pub(crate) fn lowercase(s: &str) -> (r: String)
    ensures
        r@ == lower_of(s@),
        s@.len() == 0 ==> r@.len() == 0,
{
    s.to_lowercase()
}

/// What rendering the given cell rows as a text table yields, at the table
/// width the bot uses. The result depends on the rows alone; its exact value
/// is settled by the ascii_table crate.
pub uninterp spec fn table_text(rows: Seq<Seq<Seq<char>>>) -> Seq<char>;

pub open spec fn rows_view(rows: Seq<Vec<String>>) -> Seq<Seq<Seq<char>>> {
    rows.map_values(|r: Vec<String>| r@.map_values(|c: String| c@))
}

/// Relies on ascii_table::AsciiTable::format: renders the rows as a bordered
/// text table at most 120 columns wide, a deterministic function of the rows
/// and the fixed configuration.
#[verifier::external_body]
pub(crate) fn format_table(rows: &Vec<Vec<String>>) -> (r: String)
    ensures
        r@ == table_text(rows_view(rows@)),
{
    let mut table = ascii_table::AsciiTable::default();
    table.set_max_width(120);
    table.column(0);
    table.format(rows)
}

/// The given parts joined with a separator between consecutive parts.
pub open spec fn joined(parts: Seq<Seq<char>>, sep: Seq<char>) -> Seq<char>
    decreases parts.len(),
{
    if parts.len() == 0 {
        Seq::empty()
    } else if parts.len() == 1 {
        parts[0]
    } else {
        joined(parts.drop_last(), sep) + sep + parts.last()
    }
}

/// Joins strings with a separator, as role lists and table cells are joined.
pub fn join_strings(parts: &Vec<String>, sep: &str) -> (r: String)
    ensures
        r@ == joined(parts@.map_values(|p: String| p@), sep@),
{
    let ghost views = parts@.map_values(|p: String| p@);
    let mut r = String::new();
    let mut i: usize = 0;
    while i < parts.len()
        invariant
            0 <= i <= parts.len(),
            views == parts@.map_values(|p: String| p@),
            r@ == joined(views.take(i as int), sep@),
        decreases parts.len() - i,
    {
        if i > 0 {
            r.append(sep);
        }
        r.append(parts[i].as_str());
        proof {
            assert(views.take(i + 1 as int).drop_last() =~= views.take(i as int));
            assert(views.take(i + 1 as int).last() == views[i as int]);
        }
        i += 1;
    }
    proof {
        assert(views.take(parts@.len() as int) =~= views);
    }
    r
}

} // verus!
