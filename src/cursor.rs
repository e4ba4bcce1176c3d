use vstd::prelude::*;

verus! {

/// The first index at or after `i` where `s` holds `c`, or `s.len()` when there is none.
pub open spec fn find_from(s: Seq<char>, c: char, i: int) -> int
    decreases s.len() - i,
{
    if i >= s.len() {
        s.len() as int
    } else if s[i] == c {
        i
    } else {
        find_from(s, c, i + 1)
    }
}

pub proof fn lemma_find_from_bounds(s: Seq<char>, c: char, i: int)
    requires
        0 <= i <= s.len(),
    ensures
        i <= find_from(s, c, i) <= s.len(),
        find_from(s, c, i) < s.len() ==> s[find_from(s, c, i)] == c,
    decreases s.len() - i,
{
    if i < s.len() && s[i] != c {
        lemma_find_from_bounds(s, c, i + 1);
    }
}

/// The index of the first `c` in `v` at or after `from`, or `v.len()`.
pub fn find_char(v: &Vec<char>, c: char, from: usize) -> (r: usize)
    requires
        from <= v@.len(),
    ensures
        r == find_from(v@, c, from as int),
{
    let mut i = from;
    while i < v.len() && v[i] != c
        invariant
            from <= i <= v@.len(),
            find_from(v@, c, from as int) == find_from(v@, c, i as int),
        decreases v.len() - i,
    {
        i = i + 1;
    }
    i
}

/// The line that starts at `p` (without its `'\n'`) and the position after it, or `None`
/// at the end of the text.
pub open spec fn line_at(t: Seq<char>, p: nat) -> Option<(Seq<char>, nat)> {
    if p >= t.len() {
        None
    } else {
        let e = find_from(t, '\n', p as int);
        let q = if e < t.len() {
            e + 1
        } else {
            e
        };
        Some((t.subrange(p as int, e), q as nat))
    }
}

pub proof fn lemma_line_at_advances(t: Seq<char>, p: nat)
    ensures
        line_at(t, p) matches Some((l, q)) ==> p < q <= t.len(),
{
    if p <= t.len() {
        lemma_find_from_bounds(t, '\n', p as int);
    }
}

/// A scanner over a whole text, line by line, that can hand back the line it last read.
pub struct LineCursor {
    text: Vec<char>,
    pos: usize,
    last: usize,
}

impl LineCursor {
    pub closed spec fn text(&self) -> Seq<char> {
        self.text@
    }

    pub closed spec fn pos(&self) -> nat {
        self.pos as nat
    }

    /// Where the line read last began.
    pub closed spec fn last(&self) -> nat {
        self.last as nat
    }

    pub closed spec fn wf(&self) -> bool {
        self.last <= self.pos <= self.text@.len()
    }

    pub fn new(s: &str) -> (r: LineCursor)
        ensures
            r.wf(),
            r.text() == s@,
            r.pos() == 0,
            r.last() == 0,
    {
        LineCursor { text: crate::text::chars_of(s), pos: 0, last: 0 }
    }

    pub fn position(&self) -> (r: usize)
        ensures
            r == self.pos(),
    {
        self.pos
    }

    /// Reads the next line, or `None` at the end of the text.
    pub fn next_line(&mut self) -> (r: Option<Vec<char>>)
        requires
            old(self).wf(),
        ensures
            final(self).wf(),
            final(self).text() == old(self).text(),
            match line_at(old(self).text(), old(self).pos()) {
                None => r is None && final(self).pos() == old(self).pos() && final(self).last()
                    == old(self).last(),
                Some((l, q)) => r matches Some(v) && v@ == l && final(self).pos() == q
                    && final(self).last() == old(self).pos(),
            },
    {
        if self.pos >= self.text.len() {
            return None;
        }
        let e = find_char(&self.text, '\n', self.pos);
        proof {
            lemma_find_from_bounds(self.text@, '\n', self.pos as int);
        }
        let mut line: Vec<char> = Vec::new();
        let mut i = self.pos;
        while i < e
            invariant
                self.pos <= i <= e <= self.text@.len(),
                line@ == self.text@.subrange(self.pos as int, i as int),
            decreases e - i,
        {
            line.push(self.text[i]);
            i = i + 1;
            assert(line@ =~= self.text@.subrange(self.pos as int, i as int));
        }
        self.last = self.pos;
        self.pos = if e < self.text.len() {
            e + 1
        } else {
            e
        };
        Some(line)
    }

    /// Hands back the line read last: the next read returns it again.
    pub fn unread_line(&mut self)
        requires
            old(self).wf(),
        ensures
            final(self).wf(),
            final(self).text() == old(self).text(),
            final(self).pos() == old(self).last(),
            final(self).last() == old(self).last(),
    {
        self.pos = self.last;
    }
}

} // verus!
