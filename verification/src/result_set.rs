use crate::decimal::{
    dec_digits, i32_to_string, int_str, is_digit, lemma_dec_digits_exact,
    lemma_int_str_round_trip, push_dec_digits, signed_dec_val,
};
use vstd::prelude::*;

verus! {

/// A calendar date as plain values, the way the backend driver reports
/// a date column: year, month and day of a proleptic Gregorian date.
#[derive(Clone, Copy, Debug)]
pub struct Date {
    pub year: u16,
    pub month: u8,
    pub day: u8,
}

impl Date {
    /// The ranges a driver-supplied date always lies in; the year is
    /// bounded so that its rendering has at most four digits.
    pub open spec fn wf(self) -> bool {
        self.year <= 9999 && 1 <= self.month <= 12 && 1 <= self.day <= 31
    }

    /// Decides [`Date::wf`] at run time.
    pub fn well_formed(&self) -> (r: bool)
        ensures
            r == self.wf(),
    {
        self.year <= 9999 && 1 <= self.month && self.month <= 12 && 1 <= self.day && self.day <= 31
    }
}

/// A number zero-padded on the left to at least two digits.
pub open spec fn padded2(n: nat) -> Seq<char> {
    if n < 10 {
        "0"@ + dec_digits(n)
    } else {
        dec_digits(n)
    }
}

/// A number zero-padded on the left to at least four digits.
pub open spec fn padded4(n: nat) -> Seq<char> {
    if n < 10 {
        "000"@ + dec_digits(n)
    } else if n < 100 {
        "00"@ + dec_digits(n)
    } else if n < 1000 {
        "0"@ + dec_digits(n)
    } else {
        dec_digits(n)
    }
}

/// The canonical calendar rendering of a date: four-digit year,
/// two-digit month and day, separated by hyphens, no time component.
pub open spec fn date_str(d: Date) -> Seq<char> {
    padded4(d.year as nat) + "-"@ + padded2(d.month as nat) + "-"@ + padded2(d.day as nat)
}

/// One column value of a returned row, under the runtime type tag the
/// backend supplied for its column.
#[derive(Clone, Debug)]
pub enum CellValue {
    /// An `int4` column value.
    Integer(i32),
    /// A `float8` column value, as the decimal string the driver's
    /// value renders to; the text is carried verbatim into the table.
    Float(String),
    /// A `date` column value.
    Date(Date),
    /// A `varchar` or `text` column value, rendered verbatim.
    Text(String),
    /// A value of any other runtime type.
    Unknown,
}

impl CellValue {
    pub open spec fn wf(self) -> bool {
        self matches CellValue::Date(d) ==> d.wf()
    }

    /// Decides [`CellValue::wf`] at run time.
    pub fn well_formed(&self) -> (r: bool)
        ensures
            r == self.wf(),
    {
        match self {
            CellValue::Date(d) => d.well_formed(),
            _ => true,
        }
    }
}

/// How one cell appears in the formatted table. Rendering is
/// type-directed; a value of an unhandled runtime type renders as the
/// literal token "Unknow type" as a deliberate signal, never a failure.
pub open spec fn rendered_cell(c: CellValue) -> Seq<char> {
    match c {
        CellValue::Integer(v) => int_str(v as int),
        CellValue::Float(s) => s@,
        CellValue::Date(d) => date_str(d),
        CellValue::Text(s) => s@,
        CellValue::Unknown => "Unknow type"@,
    }
}

/// An ordered set of returned rows, each row a sequence of values
/// aligned to one shared column list.
#[derive(Debug)]
pub struct ResultSet {
    /// The column names, in their declared order.
    pub columns: Vec<String>,
    /// The rows, each holding one value per column.
    pub rows: Vec<Vec<CellValue>>,
}

impl ResultSet {
    /// Every row carries exactly one well-formed value per column: the
    /// design invariant under which a result set is formatted.
    pub open spec fn wf(self) -> bool {
        forall|i: int|
            0 <= i < self.rows@.len() ==> {
                &&& (#[trigger] self.rows@[i])@.len() == self.columns@.len()
                &&& forall|j: int| 0 <= j < self.rows@[i]@.len() ==> (#[trigger] self.rows@[i]@[j]).wf()
            }
    }

    /// Decides [`ResultSet::wf`] at run time.
    pub fn well_formed(&self) -> (r: bool)
        ensures
            r == self.wf(),
    {
        let mut i: usize = 0;
        while i < self.rows.len()
            invariant
                i <= self.rows@.len(),
                forall|k: int|
                    0 <= k < i ==> {
                        &&& (#[trigger] self.rows@[k])@.len() == self.columns@.len()
                        &&& forall|j: int|
                            0 <= j < self.rows@[k]@.len() ==> (#[trigger] self.rows@[k]@[j]).wf()
                    },
            decreases self.rows@.len() - i,
        {
            let row = &self.rows[i];
            if row.len() != self.columns.len() {
                return false;
            }
            let mut j: usize = 0;
            while j < row.len()
                invariant
                    j <= row@.len(),
                    i < self.rows@.len(),
                    row@ == self.rows@[i as int]@,
                    forall|k: int| 0 <= k < j ==> (#[trigger] row@[k]).wf(),
                decreases row@.len() - j,
            {
                if !row[j].well_formed() {
                    proof {
                        assert(!(self.rows@[i as int]@[j as int]).wf());
                    }
                    return false;
                }
                j = j + 1;
            }
            i = i + 1;
        }
        true
    }
}

/// An integer column value round-trips to its exact decimal
/// string. Reading the rendered cell back as a signed decimal numeral
/// yields the value itself.
pub proof fn lemma_integer_cell_round_trip(v: i32)
    ensures
        rendered_cell(CellValue::Integer(v)) == int_str(v as int),
        signed_dec_val(rendered_cell(CellValue::Integer(v))) == v,
{
    lemma_int_str_round_trip(v as int);
}

proof fn lemma_padded2_digits(n: nat)
    ensures
        forall|i: int| 0 <= i < padded2(n).len() ==> is_digit(#[trigger] padded2(n)[i]),
{
    reveal_strlit("0");
    lemma_dec_digits_exact(n);
    let s = padded2(n);
    if n < 10 {
        assert forall|i: int| 0 <= i < s.len() implies is_digit(#[trigger] s[i]) by {
            if i == 0 {
                assert(s[0] == '0');
            } else {
                assert(s[i] == dec_digits(n)[i - 1]);
            }
        }
    }
}

proof fn lemma_padded4_digits(n: nat)
    ensures
        forall|i: int| 0 <= i < padded4(n).len() ==> is_digit(#[trigger] padded4(n)[i]),
{
    reveal_strlit("0");
    reveal_strlit("00");
    reveal_strlit("000");
    lemma_dec_digits_exact(n);
    let s = padded4(n);
    let pad: Seq<char> = if n < 10 {
        "000"@
    } else if n < 100 {
        "00"@
    } else if n < 1000 {
        "0"@
    } else {
        Seq::<char>::empty()
    };
    assert(n >= 1000 ==> s == dec_digits(n));
    assert forall|i: int| 0 <= i < s.len() implies is_digit(#[trigger] s[i]) by {
        if n < 1000 {
            assert(s == pad + dec_digits(n));
            if i < pad.len() {
                assert(pad[i] == '0');
            } else {
                assert(s[i] == dec_digits(n)[i - pad.len()]);
            }
        }
    }
}

/// Every character of a rendered date is a digit or a hyphen.
pub proof fn lemma_date_str_chars(d: Date)
    ensures
        forall|i: int|
            0 <= i < date_str(d).len() ==> is_digit(#[trigger] date_str(d)[i]) || date_str(d)[i]
                == '-',
{
    reveal_strlit("-");
    lemma_padded4_digits(d.year as nat);
    lemma_padded2_digits(d.month as nat);
    lemma_padded2_digits(d.day as nat);
    let y = padded4(d.year as nat);
    let m = padded2(d.month as nat);
    let dd = padded2(d.day as nat);
    let s = date_str(d);
    assert forall|i: int| 0 <= i < s.len() implies is_digit(#[trigger] s[i]) || s[i] == '-' by {
        if i < y.len() {
            assert(s[i] == y[i]);
        } else if i == y.len() {
            assert(s[i] == "-"@[0]);
        } else if i < y.len() + 1 + m.len() {
            assert(s[i] == m[i - y.len() - 1]);
        } else if i == y.len() + 1 + m.len() {
            assert(s[i] == "-"@[0]);
        } else {
            assert(s[i] == dd[i - y.len() - 1 - m.len() - 1]);
        }
    }
}

/// Renders one cell for the formatted table.
pub fn render_cell(c: &CellValue) -> (r: String)
    requires
        c.wf(),
    ensures
        r@ == rendered_cell(*c),
{
    match c {
        CellValue::Integer(v) => i32_to_string(*v),
        CellValue::Float(s) => s.clone(),
        CellValue::Date(d) => render_date(d),
        CellValue::Text(s) => s.clone(),
        CellValue::Unknown => "Unknow type".to_owned(),
    }
}

/// Renders a date as its canonical calendar string.
pub fn render_date(d: &Date) -> (r: String)
    requires
        d.wf(),
    ensures
        r@ == date_str(*d),
{
    let mut out = String::new();
    if d.year < 10 {
        out.append("000");
    } else if d.year < 100 {
        out.append("00");
    } else if d.year < 1000 {
        out.append("0");
    }
    push_dec_digits(d.year as u64, &mut out);
    out.append("-");
    if d.month < 10 {
        out.append("0");
    }
    push_dec_digits(d.month as u64, &mut out);
    out.append("-");
    if d.day < 10 {
        out.append("0");
    }
    push_dec_digits(d.day as u64, &mut out);
    proof {
        assert(out@ =~= date_str(*d));
    }
    out
}

} // verus!
