use vstd::prelude::*;

verus! {

/// `String::push`: appends the character to the end of the string.
pub assume_specification[ String::push ](s: &mut String, ch: char)
    ensures
        final(s)@ == old(s)@.push(ch),
;

/// `String::pop`: removes and returns the last character, or returns `None`
/// and leaves the string as it was when it is empty.
pub assume_specification[ String::pop ](s: &mut String) -> (r: Option<char>)
    ensures
        old(s)@.len() == 0 ==> r is None && final(s)@ == old(s)@,
        old(s)@.len() > 0 ==> r == Some(old(s)@.last()) && final(s)@ == old(s)@.drop_last(),
;

/// The prompt the user is typing.
#[derive(Debug)]
pub struct PromptHandler {
    c_prompt: String,
}

impl View for PromptHandler {
    type V = Seq<char>;

    closed spec fn view(&self) -> Seq<char> {
        self.c_prompt@
    }
}

impl Default for PromptHandler {
    fn default() -> (r: Self)
        ensures
            r@ == Seq::<char>::empty(),
    {
        PromptHandler { c_prompt: String::new() }
    }
}

impl PromptHandler {
    /// The text typed so far.
    pub fn current_prompt(&self) -> (r: &str)
        ensures
            r@ == self@,
    {
        self.c_prompt.as_str()
    }

    /// Appends a character to the prompt.
    pub fn add_char_prompt(&mut self, new_char: char)
        ensures
            final(self)@ == old(self)@.push(new_char),
    {
        self.c_prompt.push(new_char);
    }

    /// Removes the last character of the prompt, if there is one.
    pub fn remove_char_prompt(&mut self)
        ensures
            final(self)@ == (if old(self)@.len() == 0 {
                old(self)@
            } else {
                old(self)@.drop_last()
            }),
    {
        self.c_prompt.pop();
    }

    /// Empties the prompt.
    pub fn clear_prompt(&mut self)
        ensures
            final(self)@ == Seq::<char>::empty(),
    {
        self.c_prompt = String::new();
    }
}

} // verus!
