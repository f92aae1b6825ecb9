//! Where a rendered invoice goes.

use vstd::prelude::*;
use vstd::string::StringExecFns;
use crate::model::Invoice;

verus! {

/// The name of the HTML file of the invoice with the given number.
pub open spec fn html_name(number: Seq<char>) -> Seq<char> {
    "invoice-"@ + number + ".html"@
}

impl Invoice {
    /// The name of the file that this invoice is rendered to: `invoice-`, the
    /// number as it stands, and `.html`.
    pub fn html_file_name(&self) -> (r: String)
        ensures
            r@ == html_name(self.number@),
    {
        let mut name: String = "invoice-".to_owned();
        name.append(self.number.as_str());
        name.append(".html");
        name
    }
}

} // verus!
