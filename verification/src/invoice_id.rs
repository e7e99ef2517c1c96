use vstd::prelude::*;

use crate::error::EscrowError;
use crate::types::{Label, MAX_INVOICE_ID_STRING_LEN};

verus! {

/// The bytes an identifier may hold: `[A-Za-z0-9_]`.
pub open spec fn is_id_byte(b: u8) -> bool {
    (0x41 <= b && b <= 0x5a) || (0x61 <= b && b <= 0x7a) || (0x30 <= b && b <= 0x39) || b == 0x5f
}

/// Why `id` is refused as an invoice identifier, if it is.
pub open spec fn invoice_id_error(id: Seq<u8>) -> Option<EscrowError> {
    if id.len() == 0 || id.len() > MAX_INVOICE_ID_STRING_LEN {
        Some(EscrowError::InvoiceIdInvalidLength)
    } else if exists|i: int| 0 <= i < id.len() && !is_id_byte(#[trigger] id[i]) {
        Some(EscrowError::InvoiceIdInvalidCharset)
    } else {
        None
    }
}

fn id_byte_ok(b: u8) -> (r: bool)
    ensures
        r == is_id_byte(b),
{
    (0x41 <= b && b <= 0x5a) || (0x61 <= b && b <= 0x7a) || (0x30 <= b && b <= 0x39) || b == 0x5f
}

/// Copies at most 32 bytes into a [`Label`].
pub fn label_from_bytes(text: &[u8]) -> (l: Label)
    requires
        text@.len() <= 32,
    ensures
        l.len == text@.len(),
        l.text() == text@,
        l.well_formed(),
        l.denotes(text@),
{
    let n = text.len();
    let mut bytes = [0u8; 32];
    let mut i: usize = 0;
    while i < n
        invariant
            n == text@.len(),
            n <= 32,
            0 <= i <= n,
            bytes@.len() == 32,
            forall|j: int| 0 <= j < i ==> bytes@[j] == text@[j],
            forall|j: int| i <= j < 32 ==> bytes@[j] == 0u8,
        decreases n - i,
    {
        bytes[i] = text[i];
        i = i + 1;
    }
    let l = Label { len: n as u8, bytes };
    assert(l.text() =~= text@);
    l
}

/// Checks an invoice identifier: 1 to 32 bytes, each of `[A-Za-z0-9_]`.
pub fn validate_invoice_id(id: &[u8]) -> (r: Result<Label, EscrowError>)
    ensures
        match invoice_id_error(id@) {
            Some(e) => r == Err::<Label, EscrowError>(e),
            None => r matches Ok(l) && l.text() == id@ && l.well_formed() && l.denotes(id@),
        },
{
    let n = id.len();
    if n == 0 || n > MAX_INVOICE_ID_STRING_LEN {
        return Err(EscrowError::InvoiceIdInvalidLength);
    }
    let mut i: usize = 0;
    while i < n
        invariant
            n == id@.len(),
            0 < n <= MAX_INVOICE_ID_STRING_LEN,
            0 <= i <= n,
            forall|j: int| 0 <= j < i ==> is_id_byte(#[trigger] id@[j]),
        decreases n - i,
    {
        let b = id[i];
        if !id_byte_ok(b) {
            assert(b == id@[i as int]);
            assert(!is_id_byte(id@[i as int]));
            return Err(EscrowError::InvoiceIdInvalidCharset);
        }
        i = i + 1;
    }
    Ok(label_from_bytes(id))
}

} // verus!
