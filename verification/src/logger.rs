//! What the log shows of the items that the workers put on the queue.

use crate::queue::QueueItem;
use vstd::prelude::*;

verus! {

/// What the log shows of an item: a heading for the kind of sample and the
/// lines of the sample, or the line of the error.
pub open spec fn log_text(item: QueueItem) -> Seq<char> {
    match item {
        QueueItem::CPU(info) => "CPU Info:\n"@ + info.text(),
        QueueItem::Memory(info) => "Memory Info:\n"@ + info.text(),
        QueueItem::IO(info) => "I/O Info:\n"@ + info.text(),
        QueueItem::Error(info) => info.text(),
    }
}

pub fn log_entry(item: &QueueItem) -> (s: String)
    ensures
        s@ == log_text(*item),
{
    match item {
        QueueItem::CPU(info) => {
            let mut s = String::from_str("CPU Info:\n");
            s.append(info.render().as_str());
            s
        },
        QueueItem::Memory(info) => {
            let mut s = String::from_str("Memory Info:\n");
            s.append(info.render().as_str());
            s
        },
        QueueItem::IO(info) => {
            let mut s = String::from_str("I/O Info:\n");
            s.append(info.render().as_str());
            s
        },
        QueueItem::Error(info) => info.render(),
    }
}

} // verus!
