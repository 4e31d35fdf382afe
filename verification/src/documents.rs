//! Document policy and content assembly: which compliance documents an
//! order requires and the data each document kind needs.
//!
//! The conditional requirements are pluggable predicates: the certificate
//! of origin stands in for a future country-of-destination rule (today
//! every order is international), the phytosanitary certificate for a
//! future product-category rule (today never required). Rendering into a
//! concrete file format is the host's job; the library only decides which
//! documents to produce and assembles their data.

use vstd::prelude::*;
use crate::order::{LineItem, Order};
use crate::text::{clone_str, concat3_str};

verus! {

/// Packaging weight of one product unit, in grams.
pub const UNIT_WEIGHT_GRAMS: u64 = 500;

/// The enumerated compliance document kinds.
#[derive(Clone, Copy, Debug, PartialEq, Eq, Structural)]
pub enum DocumentKind {
    CommercialInvoice,
    PackingList,
    CertificateOfOrigin,
    PhytosanitaryCertificate,
}

/// Whether an order requires a certificate of origin: the placeholder
/// international rule, true of every order under current policy.
pub open spec fn spec_requires_certificate_of_origin(order: Order) -> bool {
    true
}

/// Whether an order requires a phytosanitary certificate: the placeholder
/// product-category rule, false of every order under current policy.
pub open spec fn spec_requires_phytosanitary_certificate(order: Order) -> bool {
    false
}

/// The ordered set of document kinds an order requires: always the
/// commercial invoice and the packing list, then the conditional
/// certificates in policy order.
pub open spec fn spec_required_documents(order: Order) -> Seq<DocumentKind> {
    seq![DocumentKind::CommercialInvoice, DocumentKind::PackingList] + (
    if spec_requires_certificate_of_origin(order) {
        seq![DocumentKind::CertificateOfOrigin]
    } else {
        Seq::empty()
    }) + (if spec_requires_phytosanitary_certificate(order) {
        seq![DocumentKind::PhytosanitaryCertificate]
    } else {
        Seq::empty()
    })
}

/// Under current policy the required set is invariable: the commercial
/// invoice, the packing list and the certificate of origin are always
/// required, and the phytosanitary certificate never is.
pub proof fn lemma_document_policy(order: Order)
    ensures
        spec_required_documents(order).contains(DocumentKind::CommercialInvoice),
        spec_required_documents(order).contains(DocumentKind::PackingList),
        spec_required_documents(order).contains(DocumentKind::CertificateOfOrigin),
        !spec_required_documents(order).contains(DocumentKind::PhytosanitaryCertificate),
        spec_required_documents(order)[0] == DocumentKind::CommercialInvoice,
        spec_required_documents(order)[1] == DocumentKind::PackingList,
        spec_required_documents(order)[2] == DocumentKind::CertificateOfOrigin,
        spec_required_documents(order).len() == 3,
{
    let docs = spec_required_documents(order);
    assert(docs[0] == DocumentKind::CommercialInvoice);
    assert(docs[1] == DocumentKind::PackingList);
    assert(docs[2] == DocumentKind::CertificateOfOrigin);
    assert(docs.len() == 3);
    assert forall|i: int| 0 <= i < docs.len() implies docs[i]
        != DocumentKind::PhytosanitaryCertificate by {
        assert(i == 0 || i == 1 || i == 2);
    }
}

/// The pluggable international rule behind the certificate of origin.
pub fn requires_certificate_of_origin(order: &Order) -> (r: bool)
    ensures
        r == spec_requires_certificate_of_origin(*order),
{
    let _ = order;
    true
}

/// The pluggable product-category rule behind the phytosanitary
/// certificate.
pub fn requires_phytosanitary_certificate(order: &Order) -> (r: bool)
    ensures
        r == spec_requires_phytosanitary_certificate(*order),
{
    let _ = order;
    false
}

/// Resolves the ordered set of documents an order requires.
pub fn required_documents(order: &Order) -> (docs: Vec<DocumentKind>)
    ensures
        docs@ == spec_required_documents(*order),
{
    let mut docs: Vec<DocumentKind> = Vec::new();
    docs.push(DocumentKind::CommercialInvoice);
    docs.push(DocumentKind::PackingList);
    if requires_certificate_of_origin(order) {
        docs.push(DocumentKind::CertificateOfOrigin);
    }
    if requires_phytosanitary_certificate(order) {
        docs.push(DocumentKind::PhytosanitaryCertificate);
    }
    proof {
        assert(docs@ =~= spec_required_documents(*order));
    }
    docs
}

/// Total weight in grams of the first `n` line items, at the fixed
/// per-unit packaging weight.
pub open spec fn spec_total_weight_grams(items: Seq<LineItem>, n: int) -> int
    decreases n,
{
    if n <= 0 {
        0
    } else {
        spec_total_weight_grams(items, n - 1) + items[n - 1].quantity * UNIT_WEIGHT_GRAMS
    }
}

/// Weight-sum prefixes never exceed the whole weight sum.
pub proof fn lemma_weight_prefix(items: Seq<LineItem>, n: int, m: int)
    requires
        0 <= n <= m,
    ensures
        0 <= spec_total_weight_grams(items, n) <= spec_total_weight_grams(items, m),
    decreases m - n,
{
    lemma_weight_nonneg(items, n);
    if n < m {
        lemma_weight_prefix(items, n + 1, m);
        assert(items[n].quantity * UNIT_WEIGHT_GRAMS >= 0) by (nonlinear_arith)
            requires
                items[n].quantity >= 0,
        ;
    }
}

proof fn lemma_weight_nonneg(items: Seq<LineItem>, n: int)
    ensures
        spec_total_weight_grams(items, n) >= 0,
    decreases n,
{
    if n > 0 {
        lemma_weight_nonneg(items, n - 1);
        assert(items[n - 1].quantity * UNIT_WEIGHT_GRAMS >= 0) by (nonlinear_arith)
            requires
                items[n - 1].quantity >= 0,
        ;
    }
}

/// One row of a packing list: the item, its package number (one-based
/// position) and its weight at the fixed per-unit packaging weight.
#[derive(Clone, Debug)]
pub struct PackingLine {
    pub name: String,
    pub quantity: u64,
    pub package_number: usize,
    pub weight_grams: u64,
}

/// The data view of a commercial invoice: identification, the billed
/// party, the line items and the total in the reporting currency.
#[derive(Clone, Debug)]
pub struct InvoiceContent {
    pub order_number: String,
    pub company_name: String,
    pub currency: String,
    pub lines: Vec<LineItem>,
    pub total_value: u64,
}

/// The data view of a packing list: identification and packaging
/// metrics with one row per line item.
#[derive(Clone, Debug)]
pub struct PackingListContent {
    pub order_number: String,
    pub total_packages: usize,
    pub total_weight_grams: u64,
    pub lines: Vec<PackingLine>,
}

/// The data view of a certificate of origin.
#[derive(Clone, Debug)]
pub struct CertificateOfOriginContent {
    pub order_number: String,
    pub certificate_number: String,
}

/// Assembles and names document data; rendering is left to the host.
#[derive(Clone, Copy, Debug)]
pub struct DocumentGenerator;

impl DocumentGenerator {
    /// A fresh assembler.
    pub fn new() -> (r: DocumentGenerator)
        ensures
            r == (DocumentGenerator {}),
    {
        DocumentGenerator
    }

    /// The number of packages of an order: one per line item.
    pub fn calculate_total_packages(&self, order: &Order) -> (r: usize)
        ensures
            r == order.products@.len(),
    {
        order.products.len()
    }

    /// The exact total weight of an order at the fixed per-unit weight.
    pub fn calculate_total_weight(&self, order: &Order) -> (r: u64)
        requires
            spec_total_weight_grams(order.products@, order.products@.len() as int) <= u64::MAX,
        ensures
            r == spec_total_weight_grams(order.products@, order.products@.len() as int),
    {
        let ghost items = order.products@;
        let mut acc: u64 = 0;
        let mut i: usize = 0;
        while i < order.products.len()
            invariant
                0 <= i <= items.len(),
                items == order.products@,
                spec_total_weight_grams(items, items.len() as int) <= u64::MAX,
                acc == spec_total_weight_grams(items, i as int),
            decreases items.len() - i,
        {
            proof {
                lemma_weight_prefix(items, i as int + 1, items.len() as int);
                lemma_weight_prefix(items, 0, i as int);
            }
            let q = order.products[i].quantity;
            let term_wide: u128 = (q as u128) * (UNIT_WEIGHT_GRAMS as u128);
            assert(term_wide == items[i as int].quantity * UNIT_WEIGHT_GRAMS);
            acc = acc + (term_wide as u64);
            i = i + 1;
        }
        acc
    }

    /// The packing rows: one per line item, package numbers one-based
    /// and in item order, each weight exact.
    pub fn generate_packing_lines(&self, order: &Order) -> (lines: Vec<PackingLine>)
        requires
            spec_total_weight_grams(order.products@, order.products@.len() as int) <= u64::MAX,
        ensures
            lines@.len() == order.products@.len(),
            forall|i: int|
                0 <= i < lines@.len() ==> {
                    &&& (#[trigger] lines@[i]).name@ == order.products@[i].name@
                    &&& lines@[i].quantity == order.products@[i].quantity
                    &&& lines@[i].package_number == i + 1
                    &&& lines@[i].weight_grams == order.products@[i].quantity * UNIT_WEIGHT_GRAMS
                },
    {
        let ghost items = order.products@;
        let mut lines: Vec<PackingLine> = Vec::new();
        let mut i: usize = 0;
        while i < order.products.len()
            invariant
                0 <= i <= items.len(),
                items == order.products@,
                spec_total_weight_grams(items, items.len() as int) <= u64::MAX,
                lines@.len() == i as int,
                forall|j: int|
                    0 <= j < i as int ==> {
                        &&& (#[trigger] lines@[j]).name@ == items[j].name@
                        &&& lines@[j].quantity == items[j].quantity
                        &&& lines@[j].package_number == j + 1
                        &&& lines@[j].weight_grams == items[j].quantity * UNIT_WEIGHT_GRAMS
                    },
            decreases items.len() - i,
        {
            proof {
                lemma_weight_prefix(items, i as int + 1, items.len() as int);
                lemma_weight_prefix(items, 0, i as int);
                assert(spec_total_weight_grams(items, i as int + 1) == spec_total_weight_grams(
                    items,
                    i as int,
                ) + items[i as int].quantity * UNIT_WEIGHT_GRAMS);
                lemma_weight_nonneg(items, i as int);
            }
            let item = &order.products[i];
            let weight_wide: u128 = (item.quantity as u128) * (UNIT_WEIGHT_GRAMS as u128);
            lines.push(
                PackingLine {
                    name: clone_str(&item.name),
                    quantity: item.quantity,
                    package_number: i + 1,
                    weight_grams: weight_wide as u64,
                },
            );
            i = i + 1;
        }
        lines
    }

    /// Assembles the commercial-invoice data of an order: its number,
    /// the billed company, the line items as they stand and the total.
    pub fn create_invoice_content(&self, order: &Order) -> (c: InvoiceContent)
        ensures
            c.order_number@ == order.order_number@,
            c.company_name@ == order.client.company_name@,
            c.currency@ == order.details.currency@,
            c.lines@ == order.products@,
            c.total_value == order.details.total_value,
    {
        InvoiceContent {
            order_number: clone_str(&order.order_number),
            company_name: clone_str(&order.client.company_name),
            currency: clone_str(&order.details.currency),
            lines: clone_line_items(&order.products),
            total_value: order.details.total_value,
        }
    }

    /// Assembles the packing-list data of an order: one package per line
    /// item and exact weights.
    pub fn create_packing_list_content(&self, order: &Order) -> (c: PackingListContent)
        requires
            spec_total_weight_grams(order.products@, order.products@.len() as int) <= u64::MAX,
        ensures
            c.order_number@ == order.order_number@,
            c.total_packages == order.products@.len(),
            c.total_weight_grams == spec_total_weight_grams(
                order.products@,
                order.products@.len() as int,
            ),
            c.lines@.len() == order.products@.len(),
            forall|i: int|
                0 <= i < c.lines@.len() ==> {
                    &&& (#[trigger] c.lines@[i]).name@ == order.products@[i].name@
                    &&& c.lines@[i].quantity == order.products@[i].quantity
                    &&& c.lines@[i].package_number == i + 1
                    &&& c.lines@[i].weight_grams == order.products@[i].quantity * UNIT_WEIGHT_GRAMS
                },
    {
        PackingListContent {
            order_number: clone_str(&order.order_number),
            total_packages: self.calculate_total_packages(order),
            total_weight_grams: self.calculate_total_weight(order),
            lines: self.generate_packing_lines(order),
        }
    }

    /// Assembles the certificate-of-origin data of an order, including
    /// its derived certificate number.
    pub fn create_certificate_of_origin_content(&self, order: &Order) -> (c:
        CertificateOfOriginContent)
        ensures
            c.order_number@ == order.order_number@,
            c.certificate_number@ == "COO-"@ + order.order_number@ + "-001"@,
    {
        CertificateOfOriginContent {
            order_number: clone_str(&order.order_number),
            certificate_number: concat3_str("COO-", order.order_number.as_str(), "-001"),
        }
    }

    /// The commercial invoice of an order: its file name and assembled
    /// data; rendering and storage are the host's part.
    pub fn generate_commercial_invoice(&self, order: &Order) -> (r: (String, InvoiceContent))
        ensures
            r.0@ == spec_document_filename(DocumentKind::CommercialInvoice, order.order_number@),
            r.1.order_number@ == order.order_number@,
            r.1.company_name@ == order.client.company_name@,
            r.1.currency@ == order.details.currency@,
            r.1.lines@ == order.products@,
            r.1.total_value == order.details.total_value,
    {
        (
            document_filename(DocumentKind::CommercialInvoice, order.order_number.as_str()),
            self.create_invoice_content(order),
        )
    }

    /// The packing list of an order: its file name and assembled data.
    pub fn generate_packing_list(&self, order: &Order) -> (r: (String, PackingListContent))
        requires
            spec_total_weight_grams(order.products@, order.products@.len() as int) <= u64::MAX,
        ensures
            r.0@ == spec_document_filename(DocumentKind::PackingList, order.order_number@),
            r.1.order_number@ == order.order_number@,
            r.1.total_packages == order.products@.len(),
            r.1.total_weight_grams == spec_total_weight_grams(
                order.products@,
                order.products@.len() as int,
            ),
            r.1.lines@.len() == order.products@.len(),
    {
        (
            document_filename(DocumentKind::PackingList, order.order_number.as_str()),
            self.create_packing_list_content(order),
        )
    }

    /// The certificate of origin of an order: its file name and
    /// assembled data.
    pub fn generate_certificate_of_origin(&self, order: &Order) -> (r: (
        String,
        CertificateOfOriginContent,
    ))
        ensures
            r.0@ == spec_document_filename(
                DocumentKind::CertificateOfOrigin,
                order.order_number@,
            ),
            r.1.order_number@ == order.order_number@,
            r.1.certificate_number@ == "COO-"@ + order.order_number@ + "-001"@,
    {
        (
            document_filename(DocumentKind::CertificateOfOrigin, order.order_number.as_str()),
            self.create_certificate_of_origin_content(order),
        )
    }
}

/// The host-facing file name of a document: a kind-specific prefix, the
/// order number, and the markup extension.
pub open spec fn spec_document_filename(kind: DocumentKind, order_number: Seq<char>) -> Seq<
    char,
> {
    (match kind {
        DocumentKind::CommercialInvoice => "commercial_invoice_"@,
        DocumentKind::PackingList => "packing_list_"@,
        DocumentKind::CertificateOfOrigin => "certificate_of_origin_"@,
        DocumentKind::PhytosanitaryCertificate => "phytosanitary_certificate_"@,
    }) + order_number + ".html"@
}

/// Derives the file name under which a document of an order is stored.
pub fn document_filename(kind: DocumentKind, order_number: &str) -> (r: String)
    ensures
        r@ == spec_document_filename(kind, order_number@),
{
    let prefix: &'static str = match kind {
        DocumentKind::CommercialInvoice => "commercial_invoice_",
        DocumentKind::PackingList => "packing_list_",
        DocumentKind::CertificateOfOrigin => "certificate_of_origin_",
        DocumentKind::PhytosanitaryCertificate => "phytosanitary_certificate_",
    };
    concat3_str(prefix, order_number, ".html")
}

/// The file names of every document an order requires, in policy order.
pub fn generate_order_documents(order: &Order) -> (names: Vec<String>)
    ensures
        names@.len() == spec_required_documents(*order).len(),
        forall|i: int|
            0 <= i < names@.len() ==> (#[trigger] names@[i])@ == spec_document_filename(
                spec_required_documents(*order)[i],
                order.order_number@,
            ),
{
    let kinds = required_documents(order);
    let ghost wanted = spec_required_documents(*order);
    let mut names: Vec<String> = Vec::new();
    let mut i: usize = 0;
    while i < kinds.len()
        invariant
            0 <= i <= kinds@.len(),
            kinds@ == wanted,
            wanted == spec_required_documents(*order),
            names@.len() == i as int,
            forall|j: int|
                0 <= j < i as int ==> (#[trigger] names@[j])@ == spec_document_filename(
                    wanted[j],
                    order.order_number@,
                ),
        decreases kinds@.len() - i,
    {
        let name = document_filename(kinds[i], order.order_number.as_str());
        names.push(name);
        i = i + 1;
    }
    names
}

/// An exact copy of a vector of line items.
fn clone_line_items(items: &Vec<LineItem>) -> (r: Vec<LineItem>)
    ensures
        r@ == items@,
{
    let mut r: Vec<LineItem> = Vec::new();
    let mut i: usize = 0;
    while i < items.len()
        invariant
            0 <= i <= items@.len(),
            r@.len() == i as int,
            forall|j: int| 0 <= j < i as int ==> #[trigger] r@[j] == items@[j],
        decreases items@.len() - i,
    {
        let item = &items[i];
        r.push(
            LineItem {
                product_id: clone_str(&item.product_id),
                name: clone_str(&item.name),
                quantity: item.quantity,
                unit_price: item.unit_price,
                unit_cost: item.unit_cost,
                total: item.total,
            },
        );
        i = i + 1;
    }
    proof {
        assert(r@ =~= items@);
    }
    r
}

} // verus!
