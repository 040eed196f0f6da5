//! Expanding a command template with one substitution value.
use vstd::prelude::*;
use crate::text::{replace_all, replaced};

verus! {

/// The template with `tok` replaced by `val` in every argument.
pub open spec fn expanded(template: Seq<Seq<char>>, tok: Seq<char>, val: Seq<char>) -> Seq<Seq<char>> {
    template.map_values(|a: Seq<char>| replaced(a, tok, val))
}

/// A command ready to run: the program and its arguments.
pub struct ExpandedCommand {
    pub program: String,
    pub args: Vec<String>,
}

impl ExpandedCommand {
    /// The program followed by its arguments.
    pub open spec fn words(&self) -> Seq<Seq<char>> {
        seq![self.program@] + self.args.deep_view()
    }
}

/// Replaces `tok` by `val` in every argument of `template`, keeping their order.
pub fn expand_template(template: &Vec<String>, tok: &str, val: &str) -> (r: Vec<String>)
    ensures
        r.deep_view() == expanded(template.deep_view(), tok@, val@),
{
    let mut r: Vec<String> = Vec::new();
    let mut i: usize = 0;
    while i < template.len()
        invariant
            i <= template@.len(),
            r.deep_view() == expanded(template.deep_view().subrange(0, i as int), tok@, val@),
        decreases template@.len() - i,
    {
        let a = replace_all(template[i].as_str(), tok, val);
        let ghost prev = r.deep_view();
        r.push(a);
        i = i + 1;
        assert(r.deep_view() =~= prev.push(a@));
        assert(r.deep_view() =~= expanded(template.deep_view().subrange(0, i as int), tok@, val@));
    }
    assert(template.deep_view().subrange(0, i as int) =~= template.deep_view());
    r
}

/// Splits the words of a command into its program and arguments; `None` when
/// there are no words.
pub fn split_command(words: Vec<String>) -> (r: Option<ExpandedCommand>)
    ensures
        r is None <==> words@.len() == 0,
        r matches Some(c) ==> c.words() == words.deep_view(),
{
    let mut words = words;
    if words.len() == 0 {
        return None;
    }
    let ghost all = words.deep_view();
    let program = words.remove(0);
    assert(seq![program@] + words.deep_view() =~= all);
    Some(ExpandedCommand { program, args: words })
}

} // verus!
