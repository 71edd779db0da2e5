//! Evaluation of a gift-order manifest: the decision core of the manifest
//! endpoint.
//!
//! The surrounding HTTP layer parses a request body (TOML, JSON or YAML,
//! chosen by the content type) into the shape below; which response the
//! manifest earns — missing magic keyword, nothing to report, or a formatted
//! order summary — is decided and proved here.

use vstd::prelude::*;

use crate::text::spec_decimal;
use crate::text::u32_to_string;

verus! {

/// A parsed manifest document.
#[derive(Debug)]
pub struct Manifest {
    pub package: Package,
}

/// The package section of a manifest.
#[derive(Debug)]
pub struct Package {
    pub name: String,
    pub authors: Vec<String>,
    pub keywords: Vec<String>,
    pub metadata: Option<Metadata>,
}

/// The optional package metadata carrying gift orders.
#[derive(Default, Debug)]
pub struct Metadata {
    pub orders: Vec<Order>,
}

/// One gift order: an item, and a quantity when one was given (a malformed
/// quantity is read as absent).
#[derive(Debug)]
pub struct Order {
    pub item: String,
    pub quantity: Option<u32>,
}

/// Character-wise string equality, stated over the views.
pub fn str_eq(a: &str, b: &str) -> (r: bool)
    ensures
        r == (a@ == b@),
{
    let alen = a.unicode_len();
    let blen = b.unicode_len();
    if alen != blen {
        return false;
    }
    let mut i: usize = 0;
    while i < alen
        invariant
            i <= alen,
            alen == a@.len(),
            alen == b@.len(),
            forall|k: int| 0 <= k < i ==> a@[k] == b@[k],
        decreases alen - i,
    {
        if a.get_char(i) != b.get_char(i) {
            return false;
        }
        i += 1;
    }
    proof {
        assert(a@ =~= b@);
    }
    true
}

/// The line one order contributes to the summary: `item: quantity`, or
/// nothing when the quantity is absent.
pub open spec fn spec_order_line(o: &Order) -> Seq<char> {
    if o.quantity is Some {
        o.item@ + ": "@ + spec_decimal(o.quantity->0 as int)
    } else {
        Seq::empty()
    }
}

impl Order {
    /// Render this order's summary line.
    pub fn order_line(&self) -> (s: String)
        ensures
            s@ == spec_order_line(self),
    {
        match self.quantity {
            Some(num) => {
                let mut s = self.item.clone();
                proof {
                    reveal_strlit(": ");
                }
                s.append(": ");
                let rendered = u32_to_string(num);
                s.append(rendered.as_str());
                proof {
                    assert(s@ =~= spec_order_line(self));
                }
                s
            },
            None => String::new(),
        }
    }
}

/// The summary of the first `n` orders: the lines of the orders that carry a
/// quantity, joined by newlines.
pub open spec fn spec_summary_prefix(orders: Seq<Order>, n: int) -> Seq<char>
    decreases n,
{
    if n <= 0 {
        Seq::empty()
    } else {
        let rest = spec_summary_prefix(orders, n - 1);
        if orders[n - 1].quantity is None {
            rest
        } else if rest.len() == 0 {
            spec_order_line(&orders[n - 1])
        } else {
            rest + seq!['\n'] + spec_order_line(&orders[n - 1])
        }
    }
}

/// The whole order summary.
pub open spec fn spec_summary(orders: Seq<Order>) -> Seq<char> {
    spec_summary_prefix(orders, orders.len() as int)
}

/// Render the order summary: one line per order with a quantity, in order,
/// joined by newlines.
pub fn format_orders(orders: &Vec<Order>) -> (s: String)
    ensures
        s@ == spec_summary(orders@),
{
    let mut out = String::new();
    let mut idx: usize = 0;
    while idx < orders.len()
        invariant
            idx <= orders@.len(),
            out@ == spec_summary_prefix(orders@, idx as int),
        decreases orders@.len() - idx,
    {
        let order = &orders[idx];
        if order.quantity.is_some() {
            let line = order.order_line();
            if out.unicode_len() == 0 {
                out = line;
            } else {
                proof {
                    reveal_strlit("\n");
                }
                let ghost before = out@;
                out.append("\n");
                out.append(line.as_str());
                proof {
                    assert(out@ =~= before + seq!['\n'] + spec_order_line(&orders@[idx as int]));
                }
            }
        }
        idx += 1;
    }
    out
}

/// Whether the package names the magic keyword.
pub open spec fn spec_has_magic_keyword(p: &Package) -> bool {
    exists|i: int| 0 <= i < p.keywords@.len() && p.keywords@[i]@ == "Christmas 2024"@
}

impl Package {
    /// Look for the magic keyword among the package's keywords.
    pub fn has_magic_keyword(&self) -> (r: bool)
        ensures
            r == spec_has_magic_keyword(self),
    {
        let mut i: usize = 0;
        while i < self.keywords.len()
            invariant
                i <= self.keywords@.len(),
                forall|k: int| 0 <= k < i ==> self.keywords@[k]@ != "Christmas 2024"@,
            decreases self.keywords@.len() - i,
        {
            if str_eq(self.keywords[i].as_str(), "Christmas 2024") {
                return true;
            }
            i += 1;
        }
        false
    }
}

/// The response a manifest earns.
#[derive(Debug, PartialEq, Eq)]
pub enum ManifestOutcome {
    /// The magic keyword is missing: a client error.
    MissingKeyword,
    /// Nothing to report: no metadata, or no order with a quantity.
    NoContent,
    /// The formatted order summary to send back.
    OrderSummary(String),
}

/// Decide what a parsed manifest earns: the magic keyword is required first;
/// then the orders under the package metadata are summarized, and an empty
/// summary (no metadata, no orders, or none with a quantity) reports no
/// content.
pub fn evaluate_manifest(m: &Manifest) -> (r: ManifestOutcome)
    ensures
        !spec_has_magic_keyword(&m.package) ==> r is MissingKeyword,
        spec_has_magic_keyword(&m.package) && m.package.metadata is None ==> r is NoContent,
        ({
            &&& spec_has_magic_keyword(&m.package)
            &&& m.package.metadata is Some
        }) ==> (if spec_summary(m.package.metadata->0.orders@).len() == 0 {
            r is NoContent
        } else {
            r matches ManifestOutcome::OrderSummary(s) && s@ == spec_summary(
                m.package.metadata->0.orders@,
            )
        }),
{
    if !m.package.has_magic_keyword() {
        return ManifestOutcome::MissingKeyword;
    }
    match &m.package.metadata {
        None => ManifestOutcome::NoContent,
        Some(metadata) => {
            let formatted = format_orders(&metadata.orders);
            if formatted.as_str().unicode_len() == 0 {
                ManifestOutcome::NoContent
            } else {
                ManifestOutcome::OrderSummary(formatted)
            }
        },
    }
}

/// The media types the manifest endpoint understands.
#[derive(Debug, PartialEq, Eq)]
pub enum MediaKind {
    Toml,
    Json,
    Yaml,
    Unsupported,
}

/// Classify a content-type header value: exactly the three supported media
/// types are recognized, anything else is unsupported.
pub fn media_kind(content_type: &str) -> (r: MediaKind)
    ensures
        r is Toml <==> content_type@ == "application/toml"@,
        r is Json <==> content_type@ == "application/json"@,
        r is Yaml <==> content_type@ == "application/yaml"@,
{
    proof {
        reveal_strlit("application/toml");
        reveal_strlit("application/json");
        reveal_strlit("application/yaml");
        assert("application/toml"@[12] == 't' && "application/json"@[12] == 'j'
            && "application/yaml"@[12] == 'y');
    }
    if str_eq(content_type, "application/toml") {
        MediaKind::Toml
    } else if str_eq(content_type, "application/json") {
        MediaKind::Json
    } else if str_eq(content_type, "application/yaml") {
        MediaKind::Yaml
    } else {
        MediaKind::Unsupported
    }
}

} // verus!
