//! A minimal streaming XML writer.
//!
//! The writer appends to a borrowed `String`. A start tag is left open
//! (`<name`) until something follows it, so that attributes can be added and
//! an element without content can be closed as `<name/>`.

use vstd::prelude::*;
use vstd::std_specs::iter::IteratorSpec;
use vstd::string::*;

verus! {

/// What the writer has last produced.
pub enum State {
    /// A start tag that has not been closed with `>` yet.
    Tag,
    /// Anything else.
    Document,
}

/// Appends XML to a string.
///
/// The string is borrowed for as long as the writer is used. Each method
/// says what the string holds afterwards, and that the writer still writes
/// to the string that it was made for, so that the owner of the string
/// knows what it holds when the writer is gone.
pub struct XmlWriter<'a> {
    pub state: State,
    /// Number of start tags without a matching end tag.
    pub started: usize,
    /// Output string to append the resulting XML to.
    pub w: &'a mut String,
}

/// The writer as a mathematical value.
pub struct XmlModel {
    /// The last thing written is a start tag that is still open.
    pub open_tag: bool,
    /// Number of start tags without a matching end tag.
    pub depth: nat,
    /// Everything in the output string.
    pub text: Seq<char>,
}

/// Two spaces for each level of nesting.
pub open spec fn indentation(depth: nat) -> Seq<char>
    decreases depth,
{
    if depth == 0 {
        Seq::empty()
    } else {
        indentation((depth - 1) as nat) + seq![' ', ' ']
    }
}

/// What closes a pending start tag before new content: `>` and a line break
/// if a tag is open, nothing otherwise.
pub open spec fn tag_closer(open_tag: bool) -> Seq<char> {
    if open_tag {
        seq!['>', '\n']
    } else {
        Seq::empty()
    }
}

/// The replacement of one character in element content.
pub open spec fn escaped_text_char(c: char) -> Seq<char> {
    if c == '&' {
        seq!['&', 'a', 'm', 'p', ';']
    } else if c == '<' {
        seq!['&', 'l', 't', ';']
    } else if c == '>' {
        seq!['&', 'g', 't', ';']
    } else {
        seq![c]
    }
}

/// The replacement of one character in an attribute value.
pub open spec fn escaped_attr_char(c: char) -> Seq<char> {
    if c == '\'' {
        seq!['&', 'a', 'p', 'o', 's', ';']
    } else if c == '"' {
        seq!['&', 'q', 'u', 'o', 't', ';']
    } else {
        escaped_text_char(c)
    }
}

/// Element content with `&`, `<` and `>` replaced by entity references.
pub open spec fn escaped_text_of(text: Seq<char>) -> Seq<char>
    decreases text.len(),
{
    if text.len() == 0 {
        Seq::empty()
    } else {
        escaped_text_of(text.drop_last()) + escaped_text_char(text.last())
    }
}

/// An attribute value with `&`, `<`, `>`, `'` and `"` replaced by entity
/// references.
pub open spec fn escaped_attr_of(value: Seq<char>) -> Seq<char>
    decreases value.len(),
{
    if value.len() == 0 {
        Seq::empty()
    } else {
        escaped_attr_of(value.drop_last()) + escaped_attr_char(value.last())
    }
}

/// A whole element that holds text and nothing else, indented, on a line of
/// its own.
pub open spec fn text_element(depth: nat, tag: Seq<char>, text: Seq<char>) -> Seq<char> {
    indentation(depth) + seq!['<'] + tag + seq!['>'] + escaped_text_of(text) + seq!['<', '/'] + tag
        + seq!['>', '\n']
}

/// The writer after `start_tag`.
pub open spec fn after_start_tag(m: XmlModel, tag: Seq<char>) -> XmlModel {
    XmlModel {
        open_tag: true,
        depth: m.depth + 1,
        text: m.text + tag_closer(m.open_tag) + indentation(m.depth) + seq!['<'] + tag,
    }
}

/// The writer after `tag_with_text`.
pub open spec fn after_tag_with_text(m: XmlModel, tag: Seq<char>, text: Seq<char>) -> XmlModel {
    XmlModel {
        open_tag: false,
        depth: m.depth,
        text: m.text + tag_closer(m.open_tag) + text_element(m.depth, tag, text),
    }
}

/// The writer after `attr`.
pub open spec fn after_attr(m: XmlModel, name: Seq<char>, value: Seq<char>) -> XmlModel {
    XmlModel {
        open_tag: m.open_tag,
        depth: m.depth,
        text: m.text + seq![' '] + name + seq!['=', '"'] + escaped_attr_of(value) + seq!['"'],
    }
}

/// The writer after `end_tag`, for a writer with at least one tag started.
pub open spec fn after_end_tag(m: XmlModel, tag: Seq<char>) -> XmlModel {
    XmlModel {
        open_tag: false,
        depth: (m.depth - 1) as nat,
        text: if m.open_tag {
            m.text + seq!['/', '>', '\n']
        } else {
            m.text + indentation((m.depth - 1) as nat) + seq!['<', '/'] + tag + seq!['>', '\n']
        },
    }
}

/// `String::push` appends one character to the string.
#[verifier::external_body]
pub(crate) fn push_char(s: &mut String, c: char)
    ensures
        final(s)@ == old(s)@.push(c),
{
    s.push(c)
}

impl<'a> View for XmlWriter<'a> {
    type V = XmlModel;

    open spec fn view(&self) -> XmlModel {
        XmlModel { open_tag: self.state is Tag, depth: self.started as nat, text: self.w@ }
    }
}

impl<'a> XmlWriter<'a> {
    /// A writer that appends to `string`, with no tag started.
    pub fn new(string: &'a mut String) -> (xml: XmlWriter<'a>)
        ensures
            xml@ == (XmlModel { open_tag: false, depth: 0, text: old(string)@ }),
            *final(xml.w) == *final(string),
    {
        XmlWriter { state: State::Document, started: 0, w: string }
    }

    /// Writes two spaces for each tag that is started and not ended.
    pub fn indent(&mut self)
        ensures
            final(self)@ == (XmlModel { text: old(self)@.text + indentation(old(self)@.depth), ..old(self)@ }),
            *final(final(self).w) == *final(old(self).w),
    {
        let ghost before = self.w@;
        let mut i: usize = 0;
        while i < self.started
            invariant
                i <= self.started,
                self.started == old(self).started,
                (self.state is Tag) == (old(self).state is Tag),
                self.w@ == before + indentation(i as nat),
                *final(self.w) == *final(old(self).w),
            decreases self.started - i,
        {
            self.w.append("  ");
            proof {
                reveal_strlit("  ");
                assert("  "@ =~= seq![' ', ' ']);
                assert(before + indentation(i as nat) + seq![' ', ' '] =~= before + indentation(
                    (i + 1) as nat,
                ));
            }
            i = i + 1;
        }
    }

    /// Starts an element: closes a pending start tag, indents, and writes
    /// `<` and the tag's name. The new tag stays open.
    pub fn start_tag(&mut self, tag: &str)
        requires
            old(self).started < usize::MAX,
        ensures
            final(self)@ == after_start_tag(old(self)@, tag@),
            *final(final(self).w) == *final(old(self).w),
    {
        if let State::Tag = self.state {
            self.w.append(">\n");
        }
        proof {
            reveal_strlit(">\n");
            assert(self.w@ =~= old(self).w@ + tag_closer(old(self).state is Tag));
        }
        self.indent();
        self.w.append("<");
        self.w.append(tag);
        self.started += 1;
        self.state = State::Tag;
        proof {
            reveal_strlit("<");
            assert(self.w@ =~= after_start_tag(old(self)@, tag@).text);
        }
    }

    /// Writes a whole element that holds `text` and nothing else, on a line
    /// of its own.
    pub fn tag_with_text(&mut self, tag: &str, text: &str)
        ensures
            final(self)@ == after_tag_with_text(old(self)@, tag@, text@),
            *final(final(self).w) == *final(old(self).w),
    {
        if let State::Tag = self.state {
            self.w.append(">\n");
        }
        proof {
            reveal_strlit(">\n");
            assert(self.w@ =~= old(self).w@ + tag_closer(old(self).state is Tag));
        }
        self.indent();
        self.w.append("<");
        self.w.append(tag);
        self.w.append(">");
        self.escaped_text(text);
        self.w.append("</");
        self.w.append(tag);
        self.w.append(">\n");
        self.state = State::Document;
        proof {
            reveal_strlit("<");
            reveal_strlit(">");
            reveal_strlit("</");
            assert(self.w@ =~= after_tag_with_text(old(self)@, tag@, text@).text);
        }
    }

    /// Writes `text` as element content.
    pub fn escaped_text(&mut self, text: &str)
        ensures
            final(self)@ == (XmlModel { text: old(self)@.text + escaped_text_of(text@), ..old(self)@ }),
            *final(final(self).w) == *final(old(self).w),
    {
        let ghost before = self.w@;
        let ghost mut done: Seq<char> = Seq::empty();
        let mut rest = text.chars();
        proof {
            broadcast use vstd::string::group_string_axioms;
        }
        loop
            invariant
                rest.decrease() is Some,
                done + rest.remaining() == text@,
                self.w@ == before + escaped_text_of(done),
                self.started == old(self).started,
                (self.state is Tag) == (old(self).state is Tag),
                *final(self.w) == *final(old(self).w),
            ensures
                self.w@ == before + escaped_text_of(text@),
                self.started == old(self).started,
                (self.state is Tag) == (old(self).state is Tag),
                *final(self.w) == *final(old(self).w),
            decreases rest.decrease()->0,
        {
            match rest.next() {
                Some(c) => {
                    if c == '&' {
                        self.w.append("&amp;");
                    } else if c == '<' {
                        self.w.append("&lt;");
                    } else if c == '>' {
                        self.w.append("&gt;");
                    } else {
                        push_char(self.w, c);
                    }
                    proof {
                        reveal_strlit("&amp;");
                        reveal_strlit("&lt;");
                        reveal_strlit("&gt;");
                        assert(done.push(c).drop_last() =~= done);
                        assert(self.w@ =~= before + escaped_text_of(done.push(c)));
                        assert(done.push(c) + rest.remaining() =~= text@);
                        done = done.push(c);
                    }
                },
                None => {
                    assert(done =~= text@);
                    break ;
                },
            }
        }
    }

    /// Adds an attribute to the start tag that is open.
    pub fn attr(&mut self, name: &str, value: &str)
        ensures
            final(self)@ == after_attr(old(self)@, name@, value@),
            *final(final(self).w) == *final(old(self).w),
    {
        self.w.append(" ");
        self.w.append(name);
        self.w.append("=\"");
        self.escaped_attr(value);
        self.w.append("\"");
        proof {
            reveal_strlit(" ");
            reveal_strlit("=\"");
            reveal_strlit("\"");
            assert(self.w@ =~= after_attr(old(self)@, name@, value@).text);
        }
    }

    /// Writes `value` as the content of an attribute value.
    pub fn escaped_attr(&mut self, value: &str)
        ensures
            final(self)@ == (XmlModel { text: old(self)@.text + escaped_attr_of(value@), ..old(self)@ }),
            *final(final(self).w) == *final(old(self).w),
    {
        let ghost before = self.w@;
        let ghost mut done: Seq<char> = Seq::empty();
        let mut rest = value.chars();
        proof {
            broadcast use vstd::string::group_string_axioms;
        }
        loop
            invariant
                rest.decrease() is Some,
                done + rest.remaining() == value@,
                self.w@ == before + escaped_attr_of(done),
                self.started == old(self).started,
                (self.state is Tag) == (old(self).state is Tag),
                *final(self.w) == *final(old(self).w),
            ensures
                self.w@ == before + escaped_attr_of(value@),
                self.started == old(self).started,
                (self.state is Tag) == (old(self).state is Tag),
                *final(self.w) == *final(old(self).w),
            decreases rest.decrease()->0,
        {
            match rest.next() {
                Some(c) => {
                    if c == '&' {
                        self.w.append("&amp;");
                    } else if c == '<' {
                        self.w.append("&lt;");
                    } else if c == '>' {
                        self.w.append("&gt;");
                    } else if c == '\'' {
                        self.w.append("&apos;");
                    } else if c == '"' {
                        self.w.append("&quot;");
                    } else {
                        push_char(self.w, c);
                    }
                    proof {
                        reveal_strlit("&amp;");
                        reveal_strlit("&lt;");
                        reveal_strlit("&gt;");
                        reveal_strlit("&apos;");
                        reveal_strlit("&quot;");
                        assert(done.push(c).drop_last() =~= done);
                        assert(self.w@ =~= before + escaped_attr_of(done.push(c)));
                        assert(done.push(c) + rest.remaining() =~= value@);
                        done = done.push(c);
                    }
                },
                None => {
                    assert(done =~= value@);
                    break ;
                },
            }
        }
    }

    /// Ends the innermost element: `/>` if its start tag is still open, a
    /// closing tag on a line of its own otherwise.
    pub fn end_tag(&mut self, tag: &str)
        requires
            old(self).started > 0,
        ensures
            final(self)@ == after_end_tag(old(self)@, tag@),
            *final(final(self).w) == *final(old(self).w),
    {
        self.started -= 1;
        match self.state {
            State::Tag => {
                self.w.append("/>\n");
                proof {
                    reveal_strlit("/>\n");
                    assert(self.w@ =~= after_end_tag(old(self)@, tag@).text);
                }
            },
            State::Document => {
                self.indent();
                self.w.append("</");
                self.w.append(tag);
                self.w.append(">\n");
                proof {
                    reveal_strlit("</");
                    reveal_strlit(">\n");
                    assert(self.w@ =~= after_end_tag(old(self)@, tag@).text);
                }
            },
        }
        self.state = State::Document;
    }
}

} // verus!
