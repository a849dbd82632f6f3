//! Structured data: the trees that YAML and JSON texts denote.
//!
//! A [`Node`] is the value that the library computes with; a [`Tree`] is what
//! it stands for in contracts.

use vstd::prelude::*;

verus! {

/// A tree of structured data.
#[derive(Debug, PartialEq)]
pub enum Node {
    /// The absent value.
    Null,
    /// A truth value.
    Bool(bool),
    /// A number, with its value where it is a whole number from 0 up to
    /// 2^64 - 1.
    Number(Option<u64>),
    /// A text.
    Text(String),
    /// A list of values.
    List(Vec<Node>),
    /// A list of keys, each with its value.
    Table(Vec<(Node, Node)>),
}

/// What a [`Node`] stands for.
pub enum Tree {
    Null,
    Bool(bool),
    Number(Option<u64>),
    Text(Seq<char>),
    List(Seq<Tree>),
    Table(Seq<(Tree, Tree)>),
}

impl Node {
    /// What this node stands for.
    pub open spec fn tree(self) -> Tree
        decreases self,
    {
        match self {
            Node::Null => Tree::Null,
            Node::Bool(b) => Tree::Bool(b),
            Node::Number(n) => Tree::Number(n),
            Node::Text(s) => Tree::Text(s@),
            Node::List(items) => Tree::List(
                Seq::new(
                    items@.len(),
                    |i: int|
                        if 0 <= i < items@.len() {
                            items@[i].tree()
                        } else {
                            Tree::Null
                        },
                ),
            ),
            Node::Table(entries) => Tree::Table(
                Seq::new(
                    entries@.len(),
                    |i: int|
                        if 0 <= i < entries@.len() {
                            (entries@[i].0.tree(), entries@[i].1.tree())
                        } else {
                            (Tree::Null, Tree::Null)
                        },
                ),
            ),
        }
    }
}

impl View for Node {
    type V = Tree;

    open spec fn view(&self) -> Tree {
        self.tree()
    }
}

impl DeepView for Node {
    type V = Tree;

    open spec fn deep_view(&self) -> Tree {
        self.view()
    }
}

/// The value that stands under the text `key` in a list of entries: that of
/// the first entry whose key is that text.
pub open spec fn entry_under(entries: Seq<(Tree, Tree)>, key: Seq<char>) -> Option<Tree>
    decreases entries.len(),
{
    if entries.len() == 0 {
        None
    } else if entries[0].0 == Tree::Text(key) {
        Some(entries[0].1)
    } else {
        entry_under(entries.skip(1), key)
    }
}

impl Tree {
    /// The value under the text `key`, where this is a table that has one.
    pub open spec fn field(self, key: Seq<char>) -> Option<Tree> {
        match self {
            Tree::Table(entries) => entry_under(entries, key),
            _ => None,
        }
    }

    /// The value under `key` unless it is missing or null.
    pub open spec fn given(self, key: Seq<char>) -> Option<Tree> {
        match self.field(key) {
            Some(Tree::Null) => None,
            other => other,
        }
    }

    /// The text that this is, if it is one.
    pub open spec fn as_text(self) -> Option<Seq<char>> {
        match self {
            Tree::Text(s) => Some(s),
            _ => None,
        }
    }

    /// The truth value that this is, if it is one.
    pub open spec fn as_flag(self) -> Option<bool> {
        match self {
            Tree::Bool(b) => Some(b),
            _ => None,
        }
    }

    /// The 32-bit number that this is, if it is one.
    pub open spec fn as_port(self) -> Option<u32> {
        match self {
            Tree::Number(Some(n)) => if n <= u32::MAX {
                Some(n as u32)
            } else {
                None
            },
            _ => None,
        }
    }

    /// The items of this list, if it is one.
    pub open spec fn as_list(self) -> Option<Seq<Tree>> {
        match self {
            Tree::List(items) => Some(items),
            _ => None,
        }
    }

    /// The entries of this table, if it is one.
    pub open spec fn as_table(self) -> Option<Seq<(Tree, Tree)>> {
        match self {
            Tree::Table(entries) => Some(entries),
            _ => None,
        }
    }
}

/// What a table holds: one pair of trees for each of its entries.
pub proof fn lemma_table_view(entries: Vec<(Node, Node)>)
    ensures
        Node::Table(entries)@ is Table,
        Node::Table(entries)@->Table_0.len() == entries@.len(),
        forall|k: int|
            0 <= k < entries@.len() ==> Node::Table(entries)@->Table_0[k] == (
                (#[trigger] entries@[k]).0@,
                entries@[k].1@,
            ),
{
}

/// What a list holds: one tree for each of its items.
pub proof fn lemma_list_view(items: Vec<Node>)
    ensures
        Node::List(items)@ is List,
        Node::List(items)@->List_0.len() == items@.len(),
        forall|k: int|
            0 <= k < items@.len() ==> Node::List(items)@->List_0[k] == (#[trigger] items@[k])@,
{
}

impl Node {
    /// The value under the text `key`, where this is a table that has one.
    pub fn field(&self, key: &str) -> (found: Option<&Node>)
        ensures
            found.deep_view() == self@.field(key@),
    {
        match self {
            Node::Table(entries) => {
                let wanted = crate::text::chars_of(key);
                let mut i: usize = 0;
                let ghost all = self@->Table_0;
                proof {
                    lemma_table_view(*entries);
                }
                assert(all.skip(0) == all);
                while i < entries.len()
                    invariant
                        i <= entries.len(),
                        wanted@ == key@,
                        self@ == Tree::Table(all),
                        all.len() == entries@.len(),
                        forall|k: int|
                            0 <= k < all.len() ==> all[k] == (
                                (#[trigger] entries@[k]).0@,
                                entries@[k].1@,
                            ),
                        entry_under(all.skip(i as int), key@) == entry_under(all, key@),
                    decreases entries.len() - i,
                {
                    assert(all.skip(i as int).skip(1) == all.skip(i + 1));
                    assert(all.skip(i as int)[0] == all[i as int]);
                    match &entries[i].0 {
                        Node::Text(name) => {
                            let have = crate::text::chars_of(name.as_str());
                            if crate::text::same_chars(&have, &wanted) {
                                return Some(&entries[i].1);
                            }
                        },
                        _ => {},
                    }
                    i += 1;
                }
                None
            },
            _ => None,
        }
    }

    /// The value under `key` unless it is missing or null.
    pub fn given(&self, key: &str) -> (found: Option<&Node>)
        ensures
            found.deep_view() == self@.given(key@),
    {
        match self.field(key) {
            Some(Node::Null) => None,
            other => other,
        }
    }
}

/// The view of a list of entries.
pub open spec fn entries_view(entries: Seq<(Node, Node)>) -> Seq<(Tree, Tree)> {
    Seq::new(entries.len(), |i: int| (entries[i].0@, entries[i].1@))
}

/// The view of a list of nodes.
pub open spec fn nodes_view(nodes: Seq<Node>) -> Seq<Tree> {
    Seq::new(nodes.len(), |i: int| nodes[i]@)
}

/// The entries with `value` under the text `key`: in the place of the first
/// entry under that key, or behind the others where there is none.
pub open spec fn inserted(entries: Seq<(Tree, Tree)>, key: Seq<char>, value: Tree) -> Seq<
    (Tree, Tree),
>
    decreases entries.len(),
{
    if entries.len() == 0 {
        seq![(Tree::Text(key), value)]
    } else if entries[0].0 == Tree::Text(key) {
        seq![(Tree::Text(key), value)] + entries.skip(1)
    } else {
        seq![entries[0]] + inserted(entries.skip(1), key, value)
    }
}

/// Whether no two entries stand under the same key.
pub open spec fn keys_distinct(entries: Seq<(Tree, Tree)>) -> bool {
    forall|i: int, j: int|
        0 <= i < j < entries.len() ==> (#[trigger] entries[i]).0 != (#[trigger] entries[j]).0
}

/// Putting a value under a key adds no key but that one, and keeps the
/// keys apart where they were apart.
pub proof fn lemma_inserted_keys(entries: Seq<(Tree, Tree)>, key: Seq<char>, value: Tree)
    ensures
        forall|i: int|
            0 <= i < inserted(entries, key, value).len() ==> {
                let found = (#[trigger] inserted(entries, key, value)[i]).0;
                found == Tree::Text(key) || exists|k: int|
                    0 <= k < entries.len() && (#[trigger] entries[k]).0 == found
            },
        keys_distinct(entries) ==> keys_distinct(inserted(entries, key, value)),
        entry_under(inserted(entries, key, value), key) == Some(value),
    decreases entries.len(),
{
    let out = inserted(entries, key, value);
    if entries.len() == 0 {
    } else if entries[0].0 == Tree::Text(key) {
        assert forall|i: int| 0 <= i < out.len() implies {
            let found = (#[trigger] out[i]).0;
            found == Tree::Text(key) || exists|k: int|
                0 <= k < entries.len() && (#[trigger] entries[k]).0 == found
        } by {
            if i > 0 {
                assert(out[i] == entries[i]);
            }
        }
        if keys_distinct(entries) {
            assert forall|i: int, j: int| 0 <= i < j < out.len() implies (#[trigger] out[i]).0 != (
            #[trigger] out[j]).0 by {
                assert(out[j] == entries[j]);
                assert(out[i].0 == entries[i].0);
            }
        }
    } else {
        let rest = entries.skip(1);
        let tail = inserted(rest, key, value);
        lemma_inserted_keys(rest, key, value);
        assert(out == seq![entries[0]] + tail);
        assert(out.skip(1) =~= tail);
        assert forall|i: int| 0 <= i < out.len() implies {
            let found = (#[trigger] out[i]).0;
            found == Tree::Text(key) || exists|k: int|
                0 <= k < entries.len() && (#[trigger] entries[k]).0 == found
        } by {
            if i == 0 {
                assert(entries[0].0 == out[0].0);
            } else {
                let found = tail[i - 1].0;
                assert(out[i] == tail[i - 1]);
                if found != Tree::Text(key) {
                    let k = choose|k: int| 0 <= k < rest.len() && (#[trigger] rest[k]).0 == found;
                    assert(entries[k + 1] == rest[k]);
                }
            }
        }
        if keys_distinct(entries) {
            assert(keys_distinct(rest)) by {
                assert forall|i: int, j: int| 0 <= i < j < rest.len() implies (
                #[trigger] rest[i]).0 != (#[trigger] rest[j]).0 by {
                    assert(rest[i] == entries[i + 1]);
                    assert(rest[j] == entries[j + 1]);
                }
            }
            assert forall|i: int, j: int| 0 <= i < j < out.len() implies (#[trigger] out[i]).0 != (
            #[trigger] out[j]).0 by {
                assert(out[j] == tail[j - 1]);
                if i == 0 {
                    let found = tail[j - 1].0;
                    if found != Tree::Text(key) {
                        let k = choose|k: int|
                            0 <= k < rest.len() && (#[trigger] rest[k]).0 == found;
                        assert(entries[k + 1] == rest[k]);
                        assert(entries[0].0 != entries[k + 1].0);
                    }
                } else {
                    assert(out[i] == tail[i - 1]);
                }
            }
        }
    }
}

/// Makes the list of the given nodes.
pub fn list_of(items: Vec<Node>) -> (list: Node)
    ensures
        list@ == Tree::List(nodes_view(items@)),
{
    proof {
        lemma_list_view(items);
        assert(Node::List(items)@->List_0 =~= nodes_view(items@));
    }
    Node::List(items)
}

/// Makes the table of the given entries.
pub fn table_of(entries: Vec<(Node, Node)>) -> (table: Node)
    ensures
        table@ == Tree::Table(entries_view(entries@)),
{
    proof {
        lemma_table_view(entries);
        assert(Node::Table(entries)@->Table_0 =~= entries_view(entries@));
    }
    Node::Table(entries)
}

/// Puts `value` under the text `key`: in the place of the first entry under
/// that key, or behind the others where there is none.
pub fn insert_entry(entries: &mut Vec<(Node, Node)>, key: String, value: Node)
    ensures
        entries_view(final(entries)@) == inserted(entries_view(old(entries)@), key@, value@),
{
    let ghost all = entries_view(entries@);
    let wanted = crate::text::chars_of(key.as_str());
    let mut i: usize = 0;
    assert(all.skip(0) =~= all);
    assert(all.take(0) + inserted(all, key@, value@) =~= inserted(all, key@, value@));
    while i < entries.len()
        invariant
            i <= entries.len(),
            entries@ == old(entries)@,
            all == entries_view(entries@),
            wanted@ == key@,
            all.take(i as int) + inserted(all.skip(i as int), key@, value@) == inserted(
                all,
                key@,
                value@,
            ),
        decreases entries.len() - i,
    {
        let found = match &entries[i].0 {
            Node::Text(name) => {
                let have = crate::text::chars_of(name.as_str());
                crate::text::same_chars(&have, &wanted)
            },
            _ => false,
        };
        proof {
            assert(all.skip(i as int)[0] == all[i as int]);
            assert(all.skip(i as int).skip(1) =~= all.skip(i + 1));
        }
        if found {
            let ghost added = (Tree::Text(key@), value@);
            entries.set(i, (Node::Text(key), value));
            proof {
                assert(entries_view(entries@) =~= all.take(i as int) + (seq![added] + all.skip(
                    i + 1,
                )));
            }
            return ;
        }
        proof {
            assert(all.take(i + 1) =~= all.take(i as int) + seq![all[i as int]]);
            assert(all.take(i + 1) + inserted(all.skip(i + 1), key@, value@) =~= all.take(i as int)
                + (seq![all[i as int]] + inserted(all.skip(i + 1), key@, value@)));
        }
        i += 1;
    }
    let ghost added = (Tree::Text(key@), value@);
    entries.push((Node::Text(key), value));
    proof {
        assert(all.skip(all.len() as int) =~= Seq::<(Tree, Tree)>::empty());
        assert(all.take(all.len() as int) =~= all);
        assert(entries_view(entries@) =~= all + seq![added]);
    }
}

} // verus!
