use crate::converter::Converter;
use crate::helpers::ConverterError;
use vstd::prelude::*;
use vstd::string::StringExecFns;

pub mod currency_api;
pub mod json;

verus! {

/// A service that knows current exchange rates.
///
/// Each call is one attempt: an implementation does not retry. Nothing is
/// promised of what a call returns; callers are verified for every answer.
pub trait ConverterDataSource<R> {
    /// Fetches the current rate from `base` to `target`.
    fn load(&mut self, base: &str, target: &str) -> Result<Converter<R>, ConverterError>;

    /// Fetches the codes of the currencies that the service supports.
    fn list(&mut self) -> Result<CurrencyList, ConverterError>;
}

/// The currency codes that a service supports, in the order it gave them.
#[derive(Debug, PartialEq, Clone)]
pub struct CurrencyList {
    pub currencies: Vec<String>,
}

/// `items` written one after another with `separator` between neighbours.
pub open spec fn joined(items: Seq<String>, separator: Seq<char>) -> Seq<char>
    decreases items.len(),
{
    if items.len() == 0 {
        Seq::empty()
    } else if items.len() == 1 {
        items[0]@
    } else {
        joined(items.drop_last(), separator) + separator + items.last()@
    }
}

impl CurrencyList {
    /// The codes as plain text, in order.
    pub open spec fn codes(self) -> Seq<Seq<char>> {
        Seq::new(self.currencies@.len(), |i: int| self.currencies@[i]@)
    }

    /// The line shown to the user: a heading, the codes separated by commas,
    /// and a line break.
    pub open spec fn rendered(self) -> Seq<char> {
        "Available currencies: "@ + joined(self.currencies@, ", "@) + "\n"@
    }

    /// Renders the list for the user.
    pub fn render(&self) -> (text: String)
        ensures
            text@ == self.rendered(),
    {
        let mut text = String::from_str("Available currencies: ");
        let mut body = String::new();
        let mut i: usize = 0;
        while i < self.currencies.len()
            invariant
                i <= self.currencies@.len(),
                body@ == joined(self.currencies@.take(i as int), ", "@),
            decreases self.currencies@.len() - i,
        {
            proof {
                let done = self.currencies@.take(i as int + 1);
                assert(done.drop_last() =~= self.currencies@.take(i as int));
                assert(done.last() == self.currencies@[i as int]);
            }
            if i > 0 {
                body.append(", ");
            }
            body.append(self.currencies[i].as_str());
            proof {
                if i == 0 {
                    assert(body@ =~= self.currencies@[0]@);
                }
            }
            i += 1;
        }
        assert(self.currencies@.take(self.currencies@.len() as int) =~= self.currencies@);
        text.append(body.as_str());
        text.append("\n");
        text
    }
}

} // verus!
