//! Comparison of the two response bodies of one entry.

use vstd::prelude::*;

use crate::request_service::ConfView;
use crate::request_service::RequestServiceConf;

verus! {

/// What is reported when the targets answer one entry differently.
#[derive(Debug)]
pub struct DiffRecord {
    pub old_url: String,
    pub new_url: String,
    pub old_body: String,
    pub new_body: String,
}

/// Mathematical value of a [`DiffRecord`].
pub struct DiffRecordView {
    pub old_url: Seq<char>,
    pub new_url: Seq<char>,
    pub old_body: Seq<char>,
    pub new_body: Seq<char>,
}

impl View for DiffRecord {
    type V = DiffRecordView;

    open spec fn view(&self) -> DiffRecordView {
        DiffRecordView {
            old_url: self.old_url@,
            new_url: self.new_url@,
            old_body: self.old_body@,
            new_body: self.new_body@,
        }
    }
}

/// The record for two bodies: present exactly when they differ as text, and
/// then made of the configured targets and both bodies in full.
pub open spec fn diff_record(conf: ConfView, old_content: Seq<char>, new_content: Seq<char>) -> Option<DiffRecordView> {
    if old_content == new_content {
        None
    } else {
        Some(
            DiffRecordView {
                old_url: conf.old_url,
                new_url: conf.new_url,
                old_body: old_content,
                new_body: new_content,
            },
        )
    }
}

/// Strict comparison of response bodies: no normalisation of any kind.
pub struct ResultDiff {}

impl ResultDiff {
    /// Whether the two bodies differ, character for character.
    pub fn diff(old_content: String, new_content: String) -> (is_diff: bool)
        ensures
            is_diff == (old_content@ != new_content@),
    {
        old_content != new_content
    }

    /// The record to report for the two bodies of one entry, if any: one is
    /// due exactly when the bodies differ.
    pub fn record(service_conf: &RequestServiceConf, old_content: String, new_content: String) -> (found: Option<DiffRecord>)
        ensures
            found is Some <==> old_content@ != new_content@,
            match found {
                Some(record) => diff_record(service_conf@, old_content@, new_content@) == Some(record@),
                None => diff_record(service_conf@, old_content@, new_content@) is None,
            },
    {
        if old_content == new_content {
            None
        } else {
            Some(
                DiffRecord {
                    old_url: service_conf.old_url.clone(),
                    new_url: service_conf.new_url.clone(),
                    old_body: old_content,
                    new_body: new_content,
                },
            )
        }
    }
}

} // verus!
