//! Invoice and invoice-line rows, decoded column by column.
//!
//! The store itself reads only the latest invoice number (for the
//! sequence rule) — no operation writes or lists invoices — but the row
//! layouts are part of the fixed schema contract, so their positional
//! decodings stand here with exact contracts. Monetary amounts are whole
//! minor units (paise); rates are basis points. A line item is a
//! denormalized snapshot of the product at the time the line was
//! written, so a later product change never rewrites history.

use vstd::prelude::*;
use crate::cells::{
    bool_cell, cell_bool, cell_i32, cell_i64, cell_opt_text, cell_text, cells_v, is_flag_cell,
    is_i32_cell, is_i64_cell, is_opt_text_cell, opt_str_view, opt_text_cell, Cell, CellV,
};

verus! {

/// An invoice header, as the fixed schema lays it out. Amounts are
/// derived by an outside calculation step and stored as given, never
/// recomputed here.
#[derive(Debug, Clone)]
pub struct Invoice {
    pub id: Option<i64>,
    pub invoice_number: String,
    pub invoice_date: String,
    pub customer_id: i64,
    pub invoice_type: String,
    pub place_of_supply: String,
    pub reverse_charge: bool,
    pub subtotal: i64,
    pub total_discount: i64,
    pub taxable_amount: i64,
    pub cgst_amount: i64,
    pub sgst_amount: i64,
    pub igst_amount: i64,
    pub cess_amount: i64,
    pub total_tax: i64,
    pub total_amount: i64,
    pub round_off: i64,
    pub final_amount: i64,
    pub payment_terms: Option<String>,
    pub due_date: Option<String>,
    pub status: String,
    pub notes: Option<String>,
    pub terms_conditions: Option<String>,
    pub pdf_path: Option<String>,
}

/// The caller-supplied data of one row, as a decode reports it.
#[verifier::ext_equal]
pub struct InvoiceRec {
    pub invoice_number: Seq<char>,
    pub invoice_date: Seq<char>,
    pub customer_id: int,
    pub invoice_type: Seq<char>,
    pub place_of_supply: Seq<char>,
    pub reverse_charge: bool,
    pub subtotal: int,
    pub total_discount: int,
    pub taxable_amount: int,
    pub cgst_amount: int,
    pub sgst_amount: int,
    pub igst_amount: int,
    pub cess_amount: int,
    pub total_tax: int,
    pub total_amount: int,
    pub round_off: int,
    pub final_amount: int,
    pub payment_terms: Option<Seq<char>>,
    pub due_date: Option<Seq<char>>,
    pub status: Seq<char>,
    pub notes: Option<Seq<char>>,
    pub terms_conditions: Option<Seq<char>>,
    pub pdf_path: Option<Seq<char>>,
}

/// The row data such a value carries.
pub open spec fn irec_of(v: Invoice) -> InvoiceRec {
    InvoiceRec {
        invoice_number: v.invoice_number@,
        invoice_date: v.invoice_date@,
        customer_id: v.customer_id as int,
        invoice_type: v.invoice_type@,
        place_of_supply: v.place_of_supply@,
        reverse_charge: v.reverse_charge,
        subtotal: v.subtotal as int,
        total_discount: v.total_discount as int,
        taxable_amount: v.taxable_amount as int,
        cgst_amount: v.cgst_amount as int,
        sgst_amount: v.sgst_amount as int,
        igst_amount: v.igst_amount as int,
        cess_amount: v.cess_amount as int,
        total_tax: v.total_tax as int,
        total_amount: v.total_amount as int,
        round_off: v.round_off as int,
        final_amount: v.final_amount as int,
        payment_terms: opt_str_view(v.payment_terms),
        due_date: opt_str_view(v.due_date),
        status: v.status@,
        notes: opt_str_view(v.notes),
        terms_conditions: opt_str_view(v.terms_conditions),
        pdf_path: opt_str_view(v.pdf_path),
    }
}

/// The cells of one row in column order, id first.
pub open spec fn invoice_cells(id: i64, d: InvoiceRec) -> Seq<CellV> {
    seq![
        CellV::Int(id as int),
        CellV::Text(d.invoice_number),
        CellV::Text(d.invoice_date),
        CellV::Int(d.customer_id),
        CellV::Text(d.invoice_type),
        CellV::Text(d.place_of_supply),
        bool_cell(d.reverse_charge),
        CellV::Int(d.subtotal),
        CellV::Int(d.total_discount),
        CellV::Int(d.taxable_amount),
        CellV::Int(d.cgst_amount),
        CellV::Int(d.sgst_amount),
        CellV::Int(d.igst_amount),
        CellV::Int(d.cess_amount),
        CellV::Int(d.total_tax),
        CellV::Int(d.total_amount),
        CellV::Int(d.round_off),
        CellV::Int(d.final_amount),
        opt_text_cell(d.payment_terms),
        opt_text_cell(d.due_date),
        CellV::Text(d.status),
        opt_text_cell(d.notes),
        opt_text_cell(d.terms_conditions),
        opt_text_cell(d.pdf_path),
    ]
}

/// The shape a cell row must have to decode as such a row.
pub open spec fn invoice_has_shape(s: Seq<CellV>) -> bool {
    &&& s.len() == 24
    &&& is_i64_cell(s[0])
    &&& s[1] is Text
    &&& s[2] is Text
    &&& is_i64_cell(s[3])
    &&& s[4] is Text
    &&& s[5] is Text
    &&& is_flag_cell(s[6])
    &&& is_i64_cell(s[7])
    &&& is_i64_cell(s[8])
    &&& is_i64_cell(s[9])
    &&& is_i64_cell(s[10])
    &&& is_i64_cell(s[11])
    &&& is_i64_cell(s[12])
    &&& is_i64_cell(s[13])
    &&& is_i64_cell(s[14])
    &&& is_i64_cell(s[15])
    &&& is_i64_cell(s[16])
    &&& is_i64_cell(s[17])
    &&& is_opt_text_cell(s[18])
    &&& is_opt_text_cell(s[19])
    &&& s[20] is Text
    &&& is_opt_text_cell(s[21])
    &&& is_opt_text_cell(s[22])
    &&& is_opt_text_cell(s[23])
}

/// Decodes one result row, column by column. Succeeds exactly on rows
/// of this shape, and then returns the one value whose encoding the row
/// is.
pub fn invoice_from_cells(cells: &Vec<Cell>) -> (r: Option<Invoice>)
    ensures
        match r {
            Some(v) => v.id matches Some(i) && cells_v(cells@) == invoice_cells(i, irec_of(v)),
            None => !invoice_has_shape(cells_v(cells@)),
        },
{
    proof {
        assert(forall|k: int| 0 <= k < cells@.len() ==> cells_v(cells@)[k] == (
        #[trigger] cells@[k])@);
    }
    if cells.len() != 24 {
        return None;
    }
    let id = match cell_i64(&cells[0]) {
        Some(x) => x,
        None => {
            return None;
        },
    };
    let invoice_number = match cell_text(&cells[1]) {
        Some(x) => x,
        None => {
            return None;
        },
    };
    let invoice_date = match cell_text(&cells[2]) {
        Some(x) => x,
        None => {
            return None;
        },
    };
    let customer_id = match cell_i64(&cells[3]) {
        Some(x) => x,
        None => {
            return None;
        },
    };
    let invoice_type = match cell_text(&cells[4]) {
        Some(x) => x,
        None => {
            return None;
        },
    };
    let place_of_supply = match cell_text(&cells[5]) {
        Some(x) => x,
        None => {
            return None;
        },
    };
    let reverse_charge = match cell_bool(&cells[6]) {
        Some(x) => x,
        None => {
            return None;
        },
    };
    let subtotal = match cell_i64(&cells[7]) {
        Some(x) => x,
        None => {
            return None;
        },
    };
    let total_discount = match cell_i64(&cells[8]) {
        Some(x) => x,
        None => {
            return None;
        },
    };
    let taxable_amount = match cell_i64(&cells[9]) {
        Some(x) => x,
        None => {
            return None;
        },
    };
    let cgst_amount = match cell_i64(&cells[10]) {
        Some(x) => x,
        None => {
            return None;
        },
    };
    let sgst_amount = match cell_i64(&cells[11]) {
        Some(x) => x,
        None => {
            return None;
        },
    };
    let igst_amount = match cell_i64(&cells[12]) {
        Some(x) => x,
        None => {
            return None;
        },
    };
    let cess_amount = match cell_i64(&cells[13]) {
        Some(x) => x,
        None => {
            return None;
        },
    };
    let total_tax = match cell_i64(&cells[14]) {
        Some(x) => x,
        None => {
            return None;
        },
    };
    let total_amount = match cell_i64(&cells[15]) {
        Some(x) => x,
        None => {
            return None;
        },
    };
    let round_off = match cell_i64(&cells[16]) {
        Some(x) => x,
        None => {
            return None;
        },
    };
    let final_amount = match cell_i64(&cells[17]) {
        Some(x) => x,
        None => {
            return None;
        },
    };
    let payment_terms = match cell_opt_text(&cells[18]) {
        Some(x) => x,
        None => {
            return None;
        },
    };
    let due_date = match cell_opt_text(&cells[19]) {
        Some(x) => x,
        None => {
            return None;
        },
    };
    let status = match cell_text(&cells[20]) {
        Some(x) => x,
        None => {
            return None;
        },
    };
    let notes = match cell_opt_text(&cells[21]) {
        Some(x) => x,
        None => {
            return None;
        },
    };
    let terms_conditions = match cell_opt_text(&cells[22]) {
        Some(x) => x,
        None => {
            return None;
        },
    };
    let pdf_path = match cell_opt_text(&cells[23]) {
        Some(x) => x,
        None => {
            return None;
        },
    };
    let v = Invoice {
        id: Some(id),
        invoice_number,
        invoice_date,
        customer_id,
        invoice_type,
        place_of_supply,
        reverse_charge,
        subtotal,
        total_discount,
        taxable_amount,
        cgst_amount,
        sgst_amount,
        igst_amount,
        cess_amount,
        total_tax,
        total_amount,
        round_off,
        final_amount,
        payment_terms,
        due_date,
        status,
        notes,
        terms_conditions,
        pdf_path,
    };
    proof {
        assert(cells_v(cells@) =~= invoice_cells(id, irec_of(v)));
    }
    Some(v)
}

/// One invoice line: a snapshot of the product it was written from,
/// with its quantity, discounts and per-line tax breakdown.
#[derive(Debug, Clone)]
pub struct InvoiceItem {
    pub id: Option<i64>,
    pub invoice_id: i64,
    pub product_id: i64,
    pub line_number: i32,
    pub product_code: String,
    pub product_name: String,
    pub description: Option<String>,
    pub hsn_sac_code: String,
    pub quantity: i64,
    pub unit_price: i64,
    pub discount_percent: i64,
    pub discount_amount: i64,
    pub taxable_amount: i64,
    pub gst_rate: i64,
    pub cgst_rate: i64,
    pub sgst_rate: i64,
    pub igst_rate: i64,
    pub cess_rate: i64,
    pub cgst_amount: i64,
    pub sgst_amount: i64,
    pub igst_amount: i64,
    pub cess_amount: i64,
    pub total_tax: i64,
    pub line_total: i64,
}

/// The caller-supplied data of one row, as a decode reports it.
#[verifier::ext_equal]
pub struct InvoiceItemRec {
    pub invoice_id: int,
    pub product_id: int,
    pub line_number: int,
    pub product_code: Seq<char>,
    pub product_name: Seq<char>,
    pub description: Option<Seq<char>>,
    pub hsn_sac_code: Seq<char>,
    pub quantity: int,
    pub unit_price: int,
    pub discount_percent: int,
    pub discount_amount: int,
    pub taxable_amount: int,
    pub gst_rate: int,
    pub cgst_rate: int,
    pub sgst_rate: int,
    pub igst_rate: int,
    pub cess_rate: int,
    pub cgst_amount: int,
    pub sgst_amount: int,
    pub igst_amount: int,
    pub cess_amount: int,
    pub total_tax: int,
    pub line_total: int,
}

/// The row data such a value carries.
pub open spec fn iirec_of(v: InvoiceItem) -> InvoiceItemRec {
    InvoiceItemRec {
        invoice_id: v.invoice_id as int,
        product_id: v.product_id as int,
        line_number: v.line_number as int,
        product_code: v.product_code@,
        product_name: v.product_name@,
        description: opt_str_view(v.description),
        hsn_sac_code: v.hsn_sac_code@,
        quantity: v.quantity as int,
        unit_price: v.unit_price as int,
        discount_percent: v.discount_percent as int,
        discount_amount: v.discount_amount as int,
        taxable_amount: v.taxable_amount as int,
        gst_rate: v.gst_rate as int,
        cgst_rate: v.cgst_rate as int,
        sgst_rate: v.sgst_rate as int,
        igst_rate: v.igst_rate as int,
        cess_rate: v.cess_rate as int,
        cgst_amount: v.cgst_amount as int,
        sgst_amount: v.sgst_amount as int,
        igst_amount: v.igst_amount as int,
        cess_amount: v.cess_amount as int,
        total_tax: v.total_tax as int,
        line_total: v.line_total as int,
    }
}

/// The cells of one row in column order, id first.
pub open spec fn invoice_item_cells(id: i64, d: InvoiceItemRec) -> Seq<CellV> {
    seq![
        CellV::Int(id as int),
        CellV::Int(d.invoice_id),
        CellV::Int(d.product_id),
        CellV::Int(d.line_number),
        CellV::Text(d.product_code),
        CellV::Text(d.product_name),
        opt_text_cell(d.description),
        CellV::Text(d.hsn_sac_code),
        CellV::Int(d.quantity),
        CellV::Int(d.unit_price),
        CellV::Int(d.discount_percent),
        CellV::Int(d.discount_amount),
        CellV::Int(d.taxable_amount),
        CellV::Int(d.gst_rate),
        CellV::Int(d.cgst_rate),
        CellV::Int(d.sgst_rate),
        CellV::Int(d.igst_rate),
        CellV::Int(d.cess_rate),
        CellV::Int(d.cgst_amount),
        CellV::Int(d.sgst_amount),
        CellV::Int(d.igst_amount),
        CellV::Int(d.cess_amount),
        CellV::Int(d.total_tax),
        CellV::Int(d.line_total),
    ]
}

/// The shape a cell row must have to decode as such a row.
pub open spec fn invoice_item_has_shape(s: Seq<CellV>) -> bool {
    &&& s.len() == 24
    &&& is_i64_cell(s[0])
    &&& is_i64_cell(s[1])
    &&& is_i64_cell(s[2])
    &&& is_i32_cell(s[3])
    &&& s[4] is Text
    &&& s[5] is Text
    &&& is_opt_text_cell(s[6])
    &&& s[7] is Text
    &&& is_i64_cell(s[8])
    &&& is_i64_cell(s[9])
    &&& is_i64_cell(s[10])
    &&& is_i64_cell(s[11])
    &&& is_i64_cell(s[12])
    &&& is_i64_cell(s[13])
    &&& is_i64_cell(s[14])
    &&& is_i64_cell(s[15])
    &&& is_i64_cell(s[16])
    &&& is_i64_cell(s[17])
    &&& is_i64_cell(s[18])
    &&& is_i64_cell(s[19])
    &&& is_i64_cell(s[20])
    &&& is_i64_cell(s[21])
    &&& is_i64_cell(s[22])
    &&& is_i64_cell(s[23])
}

/// Decodes one result row, column by column. Succeeds exactly on rows
/// of this shape, and then returns the one value whose encoding the row
/// is.
pub fn invoice_item_from_cells(cells: &Vec<Cell>) -> (r: Option<InvoiceItem>)
    ensures
        match r {
            Some(v) => v.id matches Some(i) && cells_v(cells@) == invoice_item_cells(i, iirec_of(v)),
            None => !invoice_item_has_shape(cells_v(cells@)),
        },
{
    proof {
        assert(forall|k: int| 0 <= k < cells@.len() ==> cells_v(cells@)[k] == (
        #[trigger] cells@[k])@);
    }
    if cells.len() != 24 {
        return None;
    }
    let id = match cell_i64(&cells[0]) {
        Some(x) => x,
        None => {
            return None;
        },
    };
    let invoice_id = match cell_i64(&cells[1]) {
        Some(x) => x,
        None => {
            return None;
        },
    };
    let product_id = match cell_i64(&cells[2]) {
        Some(x) => x,
        None => {
            return None;
        },
    };
    let line_number = match cell_i32(&cells[3]) {
        Some(x) => x,
        None => {
            return None;
        },
    };
    let product_code = match cell_text(&cells[4]) {
        Some(x) => x,
        None => {
            return None;
        },
    };
    let product_name = match cell_text(&cells[5]) {
        Some(x) => x,
        None => {
            return None;
        },
    };
    let description = match cell_opt_text(&cells[6]) {
        Some(x) => x,
        None => {
            return None;
        },
    };
    let hsn_sac_code = match cell_text(&cells[7]) {
        Some(x) => x,
        None => {
            return None;
        },
    };
    let quantity = match cell_i64(&cells[8]) {
        Some(x) => x,
        None => {
            return None;
        },
    };
    let unit_price = match cell_i64(&cells[9]) {
        Some(x) => x,
        None => {
            return None;
        },
    };
    let discount_percent = match cell_i64(&cells[10]) {
        Some(x) => x,
        None => {
            return None;
        },
    };
    let discount_amount = match cell_i64(&cells[11]) {
        Some(x) => x,
        None => {
            return None;
        },
    };
    let taxable_amount = match cell_i64(&cells[12]) {
        Some(x) => x,
        None => {
            return None;
        },
    };
    let gst_rate = match cell_i64(&cells[13]) {
        Some(x) => x,
        None => {
            return None;
        },
    };
    let cgst_rate = match cell_i64(&cells[14]) {
        Some(x) => x,
        None => {
            return None;
        },
    };
    let sgst_rate = match cell_i64(&cells[15]) {
        Some(x) => x,
        None => {
            return None;
        },
    };
    let igst_rate = match cell_i64(&cells[16]) {
        Some(x) => x,
        None => {
            return None;
        },
    };
    let cess_rate = match cell_i64(&cells[17]) {
        Some(x) => x,
        None => {
            return None;
        },
    };
    let cgst_amount = match cell_i64(&cells[18]) {
        Some(x) => x,
        None => {
            return None;
        },
    };
    let sgst_amount = match cell_i64(&cells[19]) {
        Some(x) => x,
        None => {
            return None;
        },
    };
    let igst_amount = match cell_i64(&cells[20]) {
        Some(x) => x,
        None => {
            return None;
        },
    };
    let cess_amount = match cell_i64(&cells[21]) {
        Some(x) => x,
        None => {
            return None;
        },
    };
    let total_tax = match cell_i64(&cells[22]) {
        Some(x) => x,
        None => {
            return None;
        },
    };
    let line_total = match cell_i64(&cells[23]) {
        Some(x) => x,
        None => {
            return None;
        },
    };
    let v = InvoiceItem {
        id: Some(id),
        invoice_id,
        product_id,
        line_number,
        product_code,
        product_name,
        description,
        hsn_sac_code,
        quantity,
        unit_price,
        discount_percent,
        discount_amount,
        taxable_amount,
        gst_rate,
        cgst_rate,
        sgst_rate,
        igst_rate,
        cess_rate,
        cgst_amount,
        sgst_amount,
        igst_amount,
        cess_amount,
        total_tax,
        line_total,
    };
    proof {
        assert(cells_v(cells@) =~= invoice_item_cells(id, iirec_of(v)));
    }
    Some(v)
}

} // verus!
