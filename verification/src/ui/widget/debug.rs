//! The diagnostic panel's data: the last keys pressed and the last messages
//! logged, each list bounded by a fixed size.
use vstd::prelude::*;

use crate::event::key::Key;
use std::collections::VecDeque;

verus! {

/// Appends an item, dropping the oldest one when the bound is reached.
pub fn append_item<T>(dest: &mut VecDeque<T>, max_size: usize, item: T)
    ensures
        old(dest)@.len() < max_size || old(dest)@.len() == 0 ==> final(dest)@ == old(dest)@.push(
            item,
        ),
        old(dest)@.len() >= max_size && old(dest)@.len() > 0 ==> final(dest)@ == old(dest)@
            .drop_first().push(item),
{
    if dest.len() >= max_size && dest.len() > 0 {
        let _ = dest.pop_front();
        proof {
            assert(dest@ =~= old(dest)@.drop_first());
        }
    }
    dest.push_back(item);
}

/// The diagnostic panel's data.
#[derive(Debug)]
pub struct DebugData {
    keys: VecDeque<(u64, Key)>,
    key_no: u64,
    logs: VecDeque<String>,
    max_size: usize,
}

impl DebugData {
    /// The numbered keys seen so far, oldest first.
    pub closed spec fn spec_keys(&self) -> Seq<(u64, Key)> {
        self.keys@
    }

    /// The messages logged so far, oldest first.
    pub closed spec fn spec_logs(&self) -> Seq<String> {
        self.logs@
    }

    /// How many keys have ever been recorded.
    pub closed spec fn spec_key_no(&self) -> u64 {
        self.key_no
    }

    /// The bound of both lists.
    pub closed spec fn spec_max_size(&self) -> nat {
        self.max_size as nat
    }

    /// An empty panel bounded by `max_size` entries per list.
    pub fn new(max_size: usize) -> (r: DebugData)
        ensures
            r.spec_keys().len() == 0,
            r.spec_logs().len() == 0,
            r.spec_key_no() == 0,
            r.spec_max_size() == max_size,
    {
        DebugData { keys: VecDeque::new(), key_no: 0, logs: VecDeque::new(), max_size }
    }

    /// The recorded keys.
    pub fn keys(&self) -> (r: &VecDeque<(u64, Key)>)
        ensures
            r@ == self.spec_keys(),
    {
        &self.keys
    }

    /// Records one key under the next number; the counter stops counting at
    /// its maximum rather than wrap.
    pub fn append_key(&mut self, key: Key)
        ensures
            final(self).spec_key_no() == (if old(self).spec_key_no() < u64::MAX {
                old(self).spec_key_no() + 1
            } else {
                old(self).spec_key_no() as int
            }),
            final(self).spec_max_size() == old(self).spec_max_size(),
            final(self).spec_logs() == old(self).spec_logs(),
            old(self).spec_keys().len() < old(self).spec_max_size() || old(self).spec_keys().len()
                == 0 ==> final(self).spec_keys() == old(self).spec_keys().push(
                (final(self).spec_key_no(), key),
            ),
            old(self).spec_keys().len() >= old(self).spec_max_size()
                && old(self).spec_keys().len() > 0 ==> final(self).spec_keys()
                == old(self).spec_keys().drop_first().push((final(self).spec_key_no(), key)),
    {
        if self.key_no < u64::MAX {
            self.key_no = self.key_no + 1;
        }
        let no = self.key_no;
        let max = self.max_size;
        append_item(&mut self.keys, max, (no, key));
    }

    /// The recorded messages.
    pub fn logs(&self) -> (r: &VecDeque<String>)
        ensures
            r@ == self.spec_logs(),
    {
        &self.logs
    }

    /// Records one message.
    pub fn append_log(&mut self, msg: String)
        ensures
            final(self).spec_key_no() == old(self).spec_key_no(),
            final(self).spec_max_size() == old(self).spec_max_size(),
            final(self).spec_keys() == old(self).spec_keys(),
            old(self).spec_logs().len() < old(self).spec_max_size() || old(self).spec_logs().len()
                == 0 ==> final(self).spec_logs() == old(self).spec_logs().push(msg),
            old(self).spec_logs().len() >= old(self).spec_max_size()
                && old(self).spec_logs().len() > 0 ==> final(self).spec_logs()
                == old(self).spec_logs().drop_first().push(msg),
    {
        let max = self.max_size;
        append_item(&mut self.logs, max, msg);
    }
}

impl Default for DebugData {
    /// An empty panel bounded by thirty entries per list.
    fn default() -> (r: DebugData)
        ensures
            r.spec_keys().len() == 0,
            r.spec_logs().len() == 0,
            r.spec_key_no() == 0,
            r.spec_max_size() == 30,
    {
        DebugData::new(30)
    }
}

/// The rendering state of the diagnostic panel.
#[derive(Debug, Clone, Default)]
pub struct DebugState {}

} // verus!
