use vstd::prelude::*;
use vstd::string::StringExecFns;
use crate::json::json_string;
use crate::json::QuotedJson;

verus! {

/// Text that opens a JSON array of entries.
pub open spec fn array_open() -> Seq<char> {
    seq!['[', '\n']
}

/// Text that closes a JSON array of entries.
pub open spec fn array_close() -> Seq<char> {
    seq!['\n', ']', '\n']
}

/// Text between two entries of a JSON array.
pub open spec fn array_separator() -> Seq<char> {
    seq![',', '\n']
}

/// Text that opens one entry of a JSON array.
pub open spec fn object_open() -> Seq<char> {
    seq![' ', ' ', '{', '\n']
}

/// Text that closes one entry of a JSON array.
pub open spec fn object_close() -> Seq<char> {
    seq![' ', ' ', '}']
}

/// Layout rules for a stream of JSON objects: either one array, pretty-printed
/// with one field per line, or one compact object per line.
pub struct JsonWriter {
    pub json_lines: bool,
}

impl JsonWriter {
    /// What `begin` appends.
    pub open spec fn begin_text(&self) -> Seq<char> {
        if self.json_lines {
            Seq::empty()
        } else {
            array_open()
        }
    }

    /// What `end` appends.
    pub open spec fn end_text(&self) -> Seq<char> {
        if self.json_lines {
            Seq::empty()
        } else {
            array_close()
        }
    }

    /// What `separator` appends.
    pub open spec fn separator_text(&self) -> Seq<char> {
        if self.json_lines {
            Seq::empty()
        } else {
            array_separator()
        }
    }

    /// What `entry_start` appends.
    pub open spec fn entry_start_text(&self) -> Seq<char> {
        if self.json_lines {
            seq!['{']
        } else {
            object_open()
        }
    }

    /// What `entry_end` appends; `first` says that the entry has no field.
    pub open spec fn entry_end_text(&self, first: bool) -> Seq<char> {
        if self.json_lines {
            seq!['}', '\n']
        } else if first {
            object_close()
        } else {
            seq!['\n'] + object_close()
        }
    }

    /// Opens the stream of entries.
    pub fn begin(&self, buffer: &mut String)
        ensures
            final(buffer)@ == old(buffer)@ + self.begin_text(),
    {
        if !self.json_lines {
            proof {
                reveal_strlit("[\n");
            }
            buffer.append("[\n");
        }
    }

    /// Closes the stream of entries.
    pub fn end(&self, buffer: &mut String)
        ensures
            final(buffer)@ == old(buffer)@ + self.end_text(),
    {
        if !self.json_lines {
            proof {
                reveal_strlit("\n]\n");
            }
            buffer.append("\n]\n");
        }
    }

    /// Called between two entries.
    pub fn separator(&self, buffer: &mut String)
        ensures
            final(buffer)@ == old(buffer)@ + self.separator_text(),
    {
        if !self.json_lines {
            proof {
                reveal_strlit(",\n");
            }
            buffer.append(",\n");
        }
    }

    /// Opens one entry.
    pub fn entry_start(&self, buffer: &mut String)
        ensures
            final(buffer)@ == old(buffer)@ + self.entry_start_text(),
    {
        if self.json_lines {
            proof {
                reveal_strlit("{");
            }
            buffer.append("{");
        } else {
            proof {
                reveal_strlit("  {\n");
            }
            buffer.append("  {\n");
        }
    }

    /// Closes one entry; `first` says that the entry got no field.
    pub fn entry_end(&self, buffer: &mut String, first: bool)
        ensures
            final(buffer)@ == old(buffer)@ + self.entry_end_text(first),
    {
        if self.json_lines {
            proof {
                reveal_strlit("}\n");
            }
            buffer.append("}\n");
        } else {
            if !first {
                proof {
                    reveal_strlit("\n");
                }
                buffer.append("\n");
            }
            proof {
                reveal_strlit("  }");
            }
            buffer.append("  }");
        }
    }

    /// What `entry_item` appends for the field `key` with the JSON text
    /// `value`; `first` says that no field of the entry was written yet.
    pub open spec fn entry_item_text(&self, first: bool, key: Seq<char>, value: Seq<char>) -> Seq<
        char,
    > {
        let lead: Seq<char> = if first {
            Seq::empty()
        } else if self.json_lines {
            seq![',']
        } else {
            array_separator()
        };
        let indent: Seq<char> = if self.json_lines {
            Seq::empty()
        } else {
            seq![' ', ' ', ' ', ' ']
        };
        lead + indent + json_string(key) + seq![':'] + value
    }

    /// What the fields `fields` of one entry come to, written one after the
    /// other; `first` says that no field of the entry was written before them.
    pub open spec fn fields_text(&self, first: bool, fields: Seq<(Seq<char>, Seq<char>)>) -> Seq<
        char,
    >
        decreases fields.len(),
    {
        if fields.len() == 0 {
            Seq::empty()
        } else {
            self.fields_text(first, fields.drop_last()) + self.entry_item_text(
                first && fields.len() == 1,
                fields.last().0,
                fields.last().1,
            )
        }
    }

    /// The text of one whole entry with the fields `fields`.
    pub open spec fn entry_text(&self, fields: Seq<(Seq<char>, Seq<char>)>) -> Seq<char> {
        self.entry_start_text() + self.fields_text(true, fields) + self.entry_end_text(
            fields.len() == 0,
        )
    }

    /// Writes one field of an entry: the name as a JSON string, a colon, and
    /// the value as it is. Every field but the first of an entry is separated
    /// from the one before it.
    pub fn entry_item(&self, buffer: &mut String, first: &mut bool, key: &str, value: QuotedJson)
        ensures
            final(buffer)@ == old(buffer)@ + self.entry_item_text(*old(first), key@, value@),
            *final(first) == false,
    {
        proof {
            reveal_strlit(",");
            reveal_strlit(",\n");
            reveal_strlit("    ");
            reveal_strlit(":");
        }
        if *first {
            *first = false;
        } else if self.json_lines {
            buffer.append(",");
        } else {
            buffer.append(",\n");
        }
        if !self.json_lines {
            buffer.append("    ");
        }
        let quoted = QuotedJson::quote_str(key);
        buffer.append(quoted.as_str());
        buffer.append(":");
        buffer.append(value.as_str());
    }

    /// Writes one whole entry with the fields `fields`, in their order.
    pub fn entry(&self, buffer: &mut String, fields: &Vec<(String, QuotedJson)>)
        ensures
            final(buffer)@ == old(buffer)@ + self.entry_text(fields_view(fields@)),
    {
        let ghost all = fields_view(fields@);
        self.entry_start(buffer);
        let mut first = true;
        let mut i: usize = 0;
        while i < fields.len()
            invariant
                i <= fields@.len(),
                all == fields_view(fields@),
                first == (i == 0),
                buffer@ == old(buffer)@ + self.entry_start_text() + self.fields_text(
                    true,
                    all.take(i as int),
                ),
            decreases fields@.len() - i,
        {
            self.entry_item(buffer, &mut first, fields[i].0.as_str(), fields[i].1.dupe());
            proof {
                let now = all.take(i + 1);
                assert(now.drop_last() =~= all.take(i as int));
            }
            i += 1;
        }
        assert(all.take(i as int) =~= all);
        self.entry_end(buffer, first);
    }
}

/// The fields `fields` as pairs of a name and a JSON text.
pub open spec fn fields_view(fields: Seq<(String, QuotedJson)>) -> Seq<(Seq<char>, Seq<char>)> {
    Seq::new(fields.len(), |i: int| (fields[i].0@, fields[i].1@))
}

/// Counters of one listing of targets.
#[derive(Debug)]
pub struct Stats {
    pub errors: u64,
    pub success: u64,
    pub targets: u64,
}

impl Default for Stats {
    /// All counters at zero.
    fn default() -> (stats: Stats)
        ensures
            stats.errors == 0,
            stats.success == 0,
            stats.targets == 0,
    {
        Stats { errors: 0, success: 0, targets: 0 }
    }
}

impl Stats {
    /// Whether the counters of `self` and `other` can be added without
    /// leaving the range of `u64`.
    pub open spec fn can_merge(&self, other: &Stats) -> bool {
        &&& self.errors + other.errors <= u64::MAX
        &&& self.success + other.success <= u64::MAX
        &&& self.targets + other.targets <= u64::MAX
    }

    /// Adds the counters of `stats` to these.
    pub fn merge(&mut self, stats: &Stats)
        requires
            old(self).can_merge(stats),
        ensures
            final(self).errors == old(self).errors + stats.errors,
            final(self).success == old(self).success + stats.success,
            final(self).targets == old(self).targets + stats.targets,
    {
        self.errors += stats.errors;
        self.success += stats.success;
        self.targets += stats.targets;
    }
}

} // verus!
