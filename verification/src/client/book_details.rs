//! What the window that describes a book shows.

use vstd::prelude::*;

use crate::client::text::{decimal, push_decimal};

verus! {

/// The texts one after the other.
pub open spec fn joined(texts: Seq<Seq<char>>) -> Seq<char>
    decreases texts.len(),
{
    if texts.len() == 0 {
        Seq::empty()
    } else {
        joined(texts.drop_last()) + texts.last()
    }
}

/// The texts of `values`, in order.
pub open spec fn texts_of(values: Seq<String>) -> Seq<Seq<char>> {
    values.map_values(|value: String| value@)
}

/// Strings the values together.
pub fn concat_strs(values: &Vec<String>) -> (res: String)
    ensures
        res@ == joined(texts_of(values@)),
{
    let mut res = String::new();
    let mut i: usize = 0;
    while i < values.len()
        invariant
            i <= values.len(),
            res@ == joined(texts_of(values@).take(i as int)),
        decreases values.len() - i,
    {
        proof {
            let texts = texts_of(values@);
            assert(texts.take(i + 1).drop_last() =~= texts.take(i as int));
        }
        res.append(values[i].as_str());
        i += 1;
    }
    proof {
        assert(texts_of(values@).take(values.len() as int) =~= texts_of(values@));
    }
    res
}

/// The line that tells when the author was born; `date` spells the day.
pub fn format_date_of_birth(date: &str) -> (line: String)
    ensures
        line@ == "Data nașterii: "@ + date@,
{
    let mut line = String::from_str("Data nașterii: ");
    line.append(date);
    line
}

/// The line that tells when the author died and at what age; `date` spells
/// the day. An author who is alive gets no line.
pub open spec fn date_of_death_text(death: Option<(Seq<char>, i64)>) -> Seq<char> {
    match death {
        Some((date, years)) => "Data morții: "@ + date + " ("@ + decimal(years as int)
            + " ani)"@,
        None => Seq::empty(),
    }
}

/// The line that tells when the author died and at what age.
pub fn format_date_of_death(death: Option<(&str, i64)>) -> (line: String)
    ensures
        line@ == date_of_death_text(
            match death {
                Some((date, years)) => Some((date@, years)),
                None => None,
            },
        ),
{
    match death {
        None => String::new(),
        Some((date, years)) => {
            let mut line = String::from_str("Data morții: ");
            line.append(date);
            line.append(" (");
            push_decimal(&mut line, years);
            line.append(" ani)");
            line
        },
    }
}

/// Whether the author has died.
pub fn is_author_dead(date_of_death: Option<i64>) -> (dead: bool)
    ensures
        dead == date_of_death.is_some(),
{
    date_of_death.is_some()
}

} // verus!
