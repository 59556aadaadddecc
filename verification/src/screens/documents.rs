//! The driver's documents screen: its texts, and how an upload updates the
//! list without fetching it again.
use vstd::prelude::*;

use crate::models::{
    DocumentStatus, DocumentType, DriverDocumentStatus, DriverVerification,
    UploadedDriverDocument, VerificationStatus,
};

verus! {

/// A row of the list after `uploaded`: the row of the same type takes the new
/// status and upload time and loses its rejection reason; the other rows stay.
pub open spec fn row_after_upload(row: DriverDocumentStatus, uploaded: UploadedDriverDocument) -> DriverDocumentStatus {
    if row.document_type == uploaded.document_type {
        DriverDocumentStatus {
            document_type: row.document_type,
            status: Some(uploaded.status),
            rejection_reason: None,
            uploaded_at: Some(uploaded.uploaded_at),
        }
    } else {
        row
    }
}

/// Updates the rows in place with the document that an upload returned, which
/// is the whole updated document: the overall status and the order of the
/// rows are kept.
pub fn apply_uploaded_document(verification: &mut DriverVerification, uploaded: &UploadedDriverDocument)
    ensures
        final(verification).verification_status == old(verification).verification_status,
        final(verification).documents@.len() == old(verification).documents@.len(),
        forall|i: int|
            0 <= i < old(verification).documents@.len() ==> #[trigger] final(verification).documents@[i]
                == row_after_upload(old(verification).documents@[i], *uploaded),
{
    let mut rows: Vec<DriverDocumentStatus> = Vec::new();
    let mut i: usize = 0;
    while i < verification.documents.len()
        invariant
            i <= verification.documents@.len(),
            *verification == *old(verification),
            rows@.len() == i,
            forall|j: int|
                0 <= j < i ==> #[trigger] rows@[j] == row_after_upload(verification.documents@[j], *uploaded),
        decreases verification.documents@.len() - i,
    {
        let row = &verification.documents[i];
        let updated = if row.document_type == uploaded.document_type {
            DriverDocumentStatus {
                document_type: row.document_type,
                status: Some(uploaded.status),
                rejection_reason: None,
                uploaded_at: Some(uploaded.uploaded_at.clone()),
            }
        } else {
            row.clone()
        };
        rows.push(updated);
        i = i + 1;
    }
    verification.documents = rows;
}

/// The name of a document type.
pub fn document_type_label(document_type: DocumentType) -> (r: &'static str)
    ensures
        r@ == match document_type {
            DocumentType::Identidad => "Documento de identidad (cedula, cedula de extranjeria o PTP)"@,
            DocumentType::TarjetaPropiedad => "Tarjeta de propiedad del motocarro"@,
        },
{
    match document_type {
        DocumentType::Identidad => "Documento de identidad (cedula, cedula de extranjeria o PTP)",
        DocumentType::TarjetaPropiedad => "Tarjeta de propiedad del motocarro",
    }
}

/// The slug of a document type in the upload form.
pub fn document_type_slug(document_type: DocumentType) -> (r: &'static str)
    ensures
        r@ == match document_type {
            DocumentType::Identidad => "identidad"@,
            DocumentType::TarjetaPropiedad => "tarjeta-propiedad"@,
        },
{
    match document_type {
        DocumentType::Identidad => "identidad",
        DocumentType::TarjetaPropiedad => "tarjeta-propiedad",
    }
}

/// The review state of a document, or that it was not uploaded.
pub fn status_label(status: Option<DocumentStatus>) -> (r: &'static str)
    ensures
        r@ == match status {
            None => "Sin subir"@,
            Some(DocumentStatus::Pending) => "Pendiente de revision"@,
            Some(DocumentStatus::Approved) => "Aprobado"@,
            Some(DocumentStatus::Rejected) => "Rechazado"@,
        },
{
    match status {
        None => "Sin subir",
        Some(DocumentStatus::Pending) => "Pendiente de revision",
        Some(DocumentStatus::Approved) => "Aprobado",
        Some(DocumentStatus::Rejected) => "Rechazado",
    }
}

/// The overall verification state of a driver.
pub fn verification_status_label(status: VerificationStatus) -> (r: &'static str)
    ensures
        r@ == match status {
            VerificationStatus::Pending => "Pendiente"@,
            VerificationStatus::Verified => "Verificado"@,
            VerificationStatus::Rejected => "Rechazado"@,
        },
{
    match status {
        VerificationStatus::Pending => "Pendiente",
        VerificationStatus::Verified => "Verificado",
        VerificationStatus::Rejected => "Rechazado",
    }
}

} // verus!
