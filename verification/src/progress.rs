//! The progress bar attached to a toast.
//!
//! A [`Progress`] is caller-owned display data.  The `(app id, tag)` pair is
//! the key under which the platform files the notification, so a later update
//! can find it again.  The builder only reads a snapshot of the record; the
//! four data-binding fields travel to the platform as a small key-to-value
//! map together with a sequence number.

use vstd::prelude::*;

verus! {

/// The sequence number sent when the toast is first shown.
pub const INITIAL_SEQUENCE_NUMBER: u32 = 1;

/// The sequence number sent with a later progress update; the platform takes
/// the higher number as the newer state.
pub const UPDATE_SEQUENCE_NUMBER: u32 = 2;

/// A snapshot of a toast's progress bar.
pub struct Progress {
    /// The tag that identifies the notification for later updates.
    pub tag: String,
    /// An optional title line above the progress bar.
    pub title: String,
    /// The status line under the progress bar, such as "Downloading...".
    pub status: String,
    /// The filled fraction of the bar, written as the decimal text of a
    /// number between 0 and 1, such as "0.5".
    pub value: String,
    /// An optional text shown instead of the default percentage.
    pub value_string: String,
}

/// The abstract value of a [`Progress`]: its five fields as character
/// sequences.
#[verifier::ext_equal]
pub ghost struct ProgressView {
    pub tag: Seq<char>,
    pub title: Seq<char>,
    pub status: Seq<char>,
    pub value: Seq<char>,
    pub value_string: Seq<char>,
}

impl View for Progress {
    type V = ProgressView;

    open spec fn view(&self) -> ProgressView {
        ProgressView {
            tag: self.tag@,
            title: self.title@,
            status: self.status@,
            value: self.value@,
            value_string: self.value_string@,
        }
    }
}

impl Clone for Progress {
    fn clone(&self) -> (r: Self)
        ensures
            r@ == self@,
    {
        Progress {
            tag: self.tag.clone(),
            title: self.title.clone(),
            status: self.status.clone(),
            value: self.value.clone(),
            value_string: self.value_string.clone(),
        }
    }
}

impl Progress {
    /// The four data-binding entries of a progress update, in the order the
    /// platform map is filled: title, status, value, value text.
    pub fn data_entries(&self) -> (entries: Vec<(String, String)>)
        ensures
            entries@.len() == 4,
            entries@[0].0@ == "progressTitle"@ && entries@[0].1@ == self@.title,
            entries@[1].0@ == "progressStatus"@ && entries@[1].1@ == self@.status,
            entries@[2].0@ == "progressValue"@ && entries@[2].1@ == self@.value,
            entries@[3].0@ == "progressValueString"@ && entries@[3].1@ == self@.value_string,
    {
        let mut entries: Vec<(String, String)> = Vec::new();
        entries.push((String::from_str("progressTitle"), self.title.clone()));
        entries.push((String::from_str("progressStatus"), self.status.clone()));
        entries.push((String::from_str("progressValue"), self.value.clone()));
        entries.push((String::from_str("progressValueString"), self.value_string.clone()));
        entries
    }
}

} // verus!
