//! The table of loaded asset handles, keyed by logical name.
use vstd::prelude::*;

verus! {

/// The handles of the assets that were asked for, each under its logical
/// name, in the order in which the names were first inserted. No name occurs
/// twice: inserting a name again replaces its handle.
pub struct GraphicsPack<H> {
    handles: Vec<(String, H)>,
}

/// No name occurs twice in `s`.
pub open spec fn unique_names<H>(s: Seq<(Seq<char>, H)>) -> bool {
    forall|i: int, j: int|
        0 <= i < s.len() && 0 <= j < s.len() && i != j ==> #[trigger] s[i].0 != #[trigger] s[j].0
}

/// `name` is the name of some entry of `s`.
pub open spec fn has_name<H>(s: Seq<(Seq<char>, H)>, name: Seq<char>) -> bool {
    exists|i: int| 0 <= i < s.len() && #[trigger] s[i].0 == name
}

/// The table after `name` is bound to `h`: the entry of that name, if there is
/// one, takes the new handle in its place; otherwise the pair goes at the end.
pub open spec fn bind<H>(s: Seq<(Seq<char>, H)>, name: Seq<char>, h: H) -> Seq<(Seq<char>, H)> {
    if has_name(s, name) {
        s.update(choose|i: int| 0 <= i < s.len() && #[trigger] s[i].0 == name, (name, h))
    } else {
        s.push((name, h))
    }
}

/// The table that results from binding each pair of `entries` in turn,
/// starting from an empty table.
pub open spec fn filled<H>(entries: Seq<(Seq<char>, H)>) -> Seq<(Seq<char>, H)>
    decreases entries.len(),
{
    if entries.len() == 0 {
        Seq::empty()
    } else {
        bind(filled(entries.drop_last()), entries.last().0, entries.last().1)
    }
}

/// Inserting pairs with distinct names into an empty table lists them in the
/// order in which they were inserted.
pub proof fn lemma_filled_keeps_order<H>(entries: Seq<(Seq<char>, H)>)
    requires
        unique_names(entries),
    ensures
        filled(entries) == entries,
    decreases entries.len(),
{
    if entries.len() > 0 {
        let prev = entries.drop_last();
        assert(unique_names(prev));
        lemma_filled_keeps_order(prev);
        let n = entries.last().0;
        if has_name(prev, n) {
            let i = choose|i: int| 0 <= i < prev.len() && #[trigger] prev[i].0 == n;
            assert(entries[i].0 == entries[entries.len() - 1].0);
        }
        assert(filled(entries) =~= entries);
    }
}

impl<H> View for GraphicsPack<H> {
    type V = Seq<(Seq<char>, H)>;

    closed spec fn view(&self) -> Seq<(Seq<char>, H)> {
        self.handles@.map_values(|e: (String, H)| (e.0@, e.1))
    }
}

impl<H> GraphicsPack<H> {
    /// The table holds each name once.
    pub open spec fn wf(&self) -> bool {
        unique_names(self@)
    }

    /// An empty table.
    pub fn new() -> (r: GraphicsPack<H>)
        ensures
            r.wf(),
            r@ == Seq::<(Seq<char>, H)>::empty(),
    {
        let r = GraphicsPack { handles: Vec::new() };
        assert(r@ =~= Seq::<(Seq<char>, H)>::empty());
        r
    }

    /// Number of names in the table.
    pub fn len(&self) -> (r: usize)
        ensures
            r == self@.len(),
    {
        self.handles.len()
    }

    /// Position of `name` in the table, if it is there.
    fn position(&self, name: &String) -> (r: Option<usize>)
        ensures
            match r {
                Some(i) => i < self@.len() && self@[i as int].0 == name@,
                None => !has_name(self@, name@),
            },
    {
        let mut i: usize = 0;
        while i < self.handles.len()
            invariant
                i <= self.handles@.len(),
                forall|j: int| 0 <= j < i ==> self@[j].0 != name@,
            decreases self.handles@.len() - i,
        {
            if self.handles[i].0 == *name {
                return Some(i);
            }
            i = i + 1;
        }
        None
    }

    /// Binds `name` to `handle`, replacing the handle of an entry of that
    /// name, else adding the pair at the end.
    pub fn insert(&mut self, name: String, handle: H)
        requires
            old(self).wf(),
        ensures
            final(self).wf(),
            final(self)@ == bind(old(self)@, name@, handle),
    {
        let ghost s = self@;
        match self.position(&name) {
            Some(i) => {
                proof {
                    let k = choose|k: int| 0 <= k < s.len() && #[trigger] s[k].0 == name@;
                    assert(k == i as int);
                }
                self.handles.set(i, (name, handle));
                assert(self@ =~= s.update(i as int, (name@, handle)));
            },
            None => {
                self.handles.push((name, handle));
                assert(self@ =~= s.push((name@, handle)));
            },
        }
    }

    /// The handle bound to `name`, if any.
    pub fn get(&self, name: &str) -> (r: Option<&H>)
        ensures
            match r {
                Some(h) => exists|i: int|
                    0 <= i < self@.len() && #[trigger] self@[i].0 == name@ && self@[i].1 == *h,
                None => !has_name(self@, name@),
            },
    {
        let key = String::from_str(name);
        match self.position(&key) {
            Some(i) => Some(&self.handles[i].1),
            None => None,
        }
    }

    /// The name and handle at position `i`.
    pub fn entry(&self, i: usize) -> (r: (&String, &H))
        requires
            i < self@.len(),
        ensures
            r.0@ == self@[i as int].0,
            *r.1 == self@[i as int].1,
    {
        (&self.handles[i].0, &self.handles[i].1)
    }

    /// Whether some entry is named `name`.
    pub fn contains(&self, name: &str) -> (r: bool)
        ensures
            r == has_name(self@, name@),
    {
        let key = String::from_str(name);
        self.position(&key).is_some()
    }

    /// The handle of the font that titles are set in. Titles cannot be set
    /// before that font is in the table.
    pub fn title_font(&self) -> (r: &H)
        requires
            has_name(self@, "heading_font"@),
        ensures
            exists|i: int|
                0 <= i < self@.len() && #[trigger] self@[i].0 == "heading_font"@ && self@[i].1 == *r,
    {
        let key = String::from_str("heading_font");
        match self.position(&key) {
            Some(i) => &self.handles[i].1,
            None => {
                proof {
                    assert(false);
                }
                &self.handles[0].1
            },
        }
    }
}

} // verus!
