//! Configuration: plugin switches and per-plugin settings.
use vstd::prelude::*;
use crate::text::str_eq;

verus! {

/// Which plugin rule sets are switched on.
#[derive(Clone, Copy, Debug, PartialEq, Eq, Structural)]
pub struct PluginFlags {
    pub jsx_a11y: bool,
    pub nextjs: bool,
}

/// Settings of the `jsx-a11y` namespace: a `components` table that maps a
/// custom component's name to the native element it stands for.
pub struct Settings {
    pub components: Vec<(String, String)>,
}

/// The element that the first entry of `table` for `name` maps it to.
pub open spec fn alias_in(table: Seq<(String, String)>, name: Seq<char>) -> Option<Seq<char>>
    decreases table.len(),
{
    if table.len() == 0 {
        None
    } else if table[0].0@ == name {
        Some(table[0].1@)
    } else {
        alias_in(table.drop_first(), name)
    }
}

proof fn lemma_alias_in(table: Seq<(String, String)>, name: Seq<char>, k: int)
    requires
        0 <= k <= table.len(),
        forall|j: int| 0 <= j < k ==> (#[trigger] table[j]).0@ != name,
        k < table.len() ==> table[k].0@ == name,
    ensures
        k < table.len() ==> alias_in(table, name) == Some(table[k].1@),
        k == table.len() ==> alias_in(table, name) is None,
    decreases table.len(),
{
    if table.len() > 0 && k > 0 {
        let rest = table.drop_first();
        assert(table[0].0@ != name);
        assert forall|j: int| 0 <= j < k - 1 implies (#[trigger] rest[j]).0@ != name by {
            assert(rest[j] == table[j + 1]);
        }
        if k < table.len() {
            assert(rest[k - 1] == table[k]);
        }
        lemma_alias_in(rest, name, k - 1);
    }
}

impl Settings {
    /// Settings with no component aliases.
    pub fn new() -> (r: Settings)
        ensures
            r.components@.len() == 0,
    {
        Settings { components: Vec::new() }
    }

    /// Adds an alias: `name` stands for the native element `element`. An
    /// earlier alias of the same name keeps precedence.
    pub fn with_component(self, name: String, element: String) -> (r: Settings)
        ensures
            r.components@ == self.components@.push((name, element)),
    {
        let mut components = self.components;
        components.push((name, element));
        Settings { components }
    }

    /// The native element a custom component name stands for, if the
    /// `components` table maps it.
    pub fn component_alias(&self, name: &str) -> (r: Option<&str>)
        ensures
            match r {
                Some(e) => alias_in(self.components@, name@) == Some(e@),
                None => alias_in(self.components@, name@) is None,
            },
    {
        let mut i: usize = 0;
        while i < self.components.len()
            invariant
                i <= self.components@.len(),
                forall|j: int| 0 <= j < i ==> (#[trigger] self.components@[j]).0@ != name@,
            decreases self.components@.len() - i,
        {
            let entry = &self.components[i];
            if str_eq(entry.0.as_str(), name) {
                proof {
                    lemma_alias_in(self.components@, name@, i as int);
                }
                return Some(entry.1.as_str());
            }
            i = i + 1;
        }
        proof {
            lemma_alias_in(self.components@, name@, i as int);
        }
        None
    }
}

} // verus!
