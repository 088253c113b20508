//! The daemon's configuration and its XML form.

use crate::xml::{
    after_tag_with_text, escaped_attr_char, escaped_attr_of, indentation, tag_closer, text_element,
    XmlModel, XmlWriter,
};
use vstd::prelude::*;
use vstd::string::*;

verus! {

/// An authentication mechanism.
#[derive(Clone, Copy, Debug, Hash, PartialEq, Eq, PartialOrd, Ord, Structural)]
pub enum Auth {
    Anonymous,
    External,
    DBusCookieSha1,
}

/// A well-known message bus type.
#[derive(Clone, Copy, Debug, Hash, PartialEq, Eq, PartialOrd, Ord, Structural)]
pub enum BusType {
    Session,
    System,
}

/// What the daemon's configuration file says.
#[derive(Clone, Debug)]
pub struct Config {
    pub bus_type: Option<BusType>,
    pub allow_anonymous: bool,
    /// Addresses to listen on.
    pub listen: Vec<String>,
    /// The authentication mechanisms that are allowed, all if there is none.
    pub auth: Vec<Auth>,
    /// Directories to search for service files.
    pub service_dirs: Vec<String>,
}

/// A configuration as a mathematical value.
pub struct ConfigView {
    pub bus_type: Option<BusType>,
    pub allow_anonymous: bool,
    pub listen: Seq<Seq<char>>,
    pub auth: Seq<Auth>,
    pub service_dirs: Seq<Seq<char>>,
}

impl View for Config {
    type V = ConfigView;

    open spec fn view(&self) -> ConfigView {
        ConfigView {
            bus_type: self.bus_type,
            allow_anonymous: self.allow_anonymous,
            listen: self.listen@.map_values(|s: String| s@),
            auth: self.auth@,
            service_dirs: self.service_dirs@.map_values(|s: String| s@),
        }
    }
}

/// The document type declaration that the file starts with.
pub open spec fn doctype() -> Seq<char> {
    "<!DOCTYPE busconfig PUBLIC\n \"-//freedesktop//DTD D-Bus Bus Configuration 1.0//EN\"\n \"http://www.freedesktop.org/standards/dbus/1.0/busconfig.dtd\">"@
}

/// The name of a bus type in the configuration file.
pub open spec fn bus_type_name(bus_type: BusType) -> Seq<char> {
    match bus_type {
        BusType::Session => "session"@,
        BusType::System => "system"@,
    }
}

/// The name of an authentication mechanism in the configuration file.
pub open spec fn auth_name(auth: Auth) -> Seq<char> {
    match auth {
        Auth::Anonymous => "ANONYMOUS"@,
        Auth::External => "EXTERNAL"@,
        Auth::DBusCookieSha1 => "DBUS_COOKIE_SHA1"@,
    }
}

/// One element per item, each with the same tag, one level deep.
pub open spec fn text_elements(tag: Seq<char>, items: Seq<Seq<char>>) -> Seq<char>
    decreases items.len(),
{
    if items.len() == 0 {
        Seq::empty()
    } else {
        text_elements(tag, items.drop_last()) + text_element(1, tag, items.last())
    }
}

/// The `<type>` element, if a bus type is set.
pub open spec fn type_element(bus_type: Option<BusType>) -> Seq<char> {
    match bus_type {
        Some(bus_type) => text_element(1, "type"@, bus_type_name(bus_type)),
        None => Seq::empty(),
    }
}

/// The empty `<allow_anonymous/>` element, if anonymous connections are
/// authorized.
pub open spec fn allow_anonymous_element(allow_anonymous: bool) -> Seq<char> {
    if allow_anonymous {
        "  <allow_anonymous/>\n"@
    } else {
        Seq::empty()
    }
}

/// The elements that depend on the configuration, in the order of the file.
pub open spec fn settings(c: ConfigView) -> Seq<char> {
    type_element(c.bus_type) + allow_anonymous_element(c.allow_anonymous) + text_elements(
        "listen"@,
        c.listen,
    ) + text_elements("auth"@, c.auth.map_values(|a: Auth| auth_name(a))) + text_elements(
        "servicedir"@,
        c.service_dirs,
    )
}

/// The policy that every configuration ends with: anyone may own any name
/// and send to any destination.
pub open spec fn default_policy() -> Seq<char> {
    "  <policy context=\"default\">\n    <allow receive_requested_reply=\"true\"/>\n    <allow send_destination=\"*\"/>\n    <allow own=\"*\"/>\n  </policy>\n"@
}

/// The whole configuration file.
pub open spec fn config_document(c: ConfigView) -> Seq<char> {
    doctype() + "\n<busconfig>\n"@ + settings(c) + default_policy() + "</busconfig>\n"@
}

impl Default for Config {
    fn default() -> (c: Config)
        ensures
            c@ == (ConfigView {
                bus_type: None,
                allow_anonymous: false,
                listen: Seq::empty(),
                auth: Seq::empty(),
                service_dirs: Seq::empty(),
            }),
    {
        let c = Config {
            bus_type: None,
            allow_anonymous: false,
            listen: Vec::new(),
            auth: Vec::new(),
            service_dirs: Vec::new(),
        };
        assert(c@.listen =~= Seq::empty());
        assert(c@.service_dirs =~= Seq::empty());
        c
    }
}

/// An attribute value without `&`, `<`, `>`, `'` or `"` is written as it is.
proof fn lemma_plain_attr_value(value: Seq<char>)
    requires
        forall|i: int| 0 <= i < value.len() ==> escaped_attr_char(#[trigger] value[i]) == seq![value[i]],
    ensures
        escaped_attr_of(value) == value,
    decreases value.len(),
{
    if value.len() > 0 {
        lemma_plain_attr_value(value.drop_last());
        assert(value.drop_last() + seq![value.last()] =~= value);
    }
}

/// The name of a bus type in the configuration file.
fn bus_type_str(bus_type: BusType) -> (name: &'static str)
    ensures
        name@ == bus_type_name(bus_type),
{
    match bus_type {
        BusType::Session => "session",
        BusType::System => "system",
    }
}

/// The name of an authentication mechanism in the configuration file.
fn auth_str(auth: Auth) -> (name: &'static str)
    ensures
        name@ == auth_name(auth),
{
    match auth {
        Auth::Anonymous => "ANONYMOUS",
        Auth::External => "EXTERNAL",
        Auth::DBusCookieSha1 => "DBUS_COOKIE_SHA1",
    }
}

/// The text of a writer that has `<busconfig` started behind `head` and has
/// written `body` inside it.
spec fn in_busconfig(head: Seq<char>, body: Seq<char>) -> XmlModel {
    XmlModel {
        open_tag: body.len() == 0,
        depth: 1,
        text: if body.len() == 0 {
            head
        } else {
            head + seq!['>', '\n'] + body
        },
    }
}

/// A text element is never empty.
proof fn lemma_text_element_len(depth: nat, tag: Seq<char>, text: Seq<char>)
    ensures
        text_element(depth, tag, text).len() > 0,
{
}

/// Writing a text element inside `<busconfig` adds it to the body.
proof fn lemma_text_element_in_busconfig(
    head: Seq<char>,
    body: Seq<char>,
    tag: Seq<char>,
    text: Seq<char>,
)
    ensures
        after_tag_with_text(in_busconfig(head, body), tag, text) == in_busconfig(
            head,
            body + text_element(1, tag, text),
        ),
{
    let e = text_element(1, tag, text);
    lemma_text_element_len(1, tag, text);
    assert(after_tag_with_text(in_busconfig(head, body), tag, text).text =~= in_busconfig(
        head,
        body + e,
    ).text);
}

/// Writes one element with the given tag for each item.
fn write_text_elements(
    xml: &mut XmlWriter<'_>,
    tag: &str,
    items: &Vec<String>,
    Ghost(head): Ghost<Seq<char>>,
    Ghost(body): Ghost<Seq<char>>,
)
    requires
        old(xml)@ == in_busconfig(head, body),
    ensures
        final(xml)@ == in_busconfig(
            head,
            body + text_elements(tag@, items@.map_values(|s: String| s@)),
        ),
        *final(final(xml).w) == *final(old(xml).w),
{
    let ghost texts = items@.map_values(|s: String| s@);
    let ghost mut written = body;
    for i in 0..items.len()
        invariant
            xml@ == in_busconfig(head, written),
            texts == items@.map_values(|s: String| s@),
            written == body + text_elements(tag@, texts.take(i as int)),
            *final(xml.w) == *final(old(xml).w),
    {
        xml.tag_with_text(tag, items[i].as_str());
        proof {
            let item = texts[i as int];
            lemma_text_element_in_busconfig(head, written, tag@, item);
            assert(texts.take(i + 1).drop_last() =~= texts.take(i as int));
            written = written + text_element(1, tag@, item);
        }
    }
    assert(texts.take(items.len() as int) =~= texts);
}

/// Writes one `<auth>` element for each mechanism.
fn write_auth_elements(
    xml: &mut XmlWriter<'_>,
    auth: &Vec<Auth>,
    Ghost(head): Ghost<Seq<char>>,
    Ghost(body): Ghost<Seq<char>>,
)
    requires
        old(xml)@ == in_busconfig(head, body),
    ensures
        final(xml)@ == in_busconfig(
            head,
            body + text_elements("auth"@, auth@.map_values(|a: Auth| auth_name(a))),
        ),
        *final(final(xml).w) == *final(old(xml).w),
{
    let ghost names = auth@.map_values(|a: Auth| auth_name(a));
    let ghost mut written = body;
    for i in 0..auth.len()
        invariant
            xml@ == in_busconfig(head, written),
            names == auth@.map_values(|a: Auth| auth_name(a)),
            written == body + text_elements("auth"@, names.take(i as int)),
            *final(xml.w) == *final(old(xml).w),
    {
        xml.tag_with_text("auth", auth_str(auth[i]));
        proof {
            let item = names[i as int];
            lemma_text_element_in_busconfig(head, written, "auth"@, item);
            assert(names.take(i + 1).drop_last() =~= names.take(i as int));
            written = written + text_element(1, "auth"@, item);
        }
    }
    assert(names.take(auth.len() as int) =~= names);
}

/// Writes the empty `<allow_anonymous/>` element.
fn write_allow_anonymous(
    xml: &mut XmlWriter<'_>,
    Ghost(head): Ghost<Seq<char>>,
    Ghost(body): Ghost<Seq<char>>,
)
    requires
        old(xml)@ == in_busconfig(head, body),
    ensures
        final(xml)@ == in_busconfig(head, body + allow_anonymous_element(true)),
        *final(final(xml).w) == *final(old(xml).w),
{
    xml.start_tag("allow_anonymous");
    xml.end_tag("allow_anonymous");
    proof {
        reveal_strlit("allow_anonymous");
        reveal_strlit("  <allow_anonymous/>\n");
        reveal_with_fuel(indentation, 2);
        assert(xml@.text =~= in_busconfig(head, body + allow_anonymous_element(true)).text);
    }
}

/// An `<allow>` element with one attribute and no content, two levels deep.
spec fn allow_element(name: Seq<char>, value: Seq<char>) -> Seq<char> {
    seq![' ', ' ', ' ', ' ', '<', 'a', 'l', 'l', 'o', 'w', ' '] + name + seq!['=', '"'] + value
        + seq!['"', '/', '>', '\n']
}

/// Writes an `<allow>` element with one attribute, whose value needs no
/// escaping, as the next child of an element one level deep.
fn write_allow(xml: &mut XmlWriter<'_>, name: &str, value: &str)
    requires
        old(xml)@.depth == 2,
        escaped_attr_of(value@) == value@,
    ensures
        final(xml)@ == (XmlModel {
            open_tag: false,
            depth: 2,
            text: old(xml)@.text + tag_closer(old(xml)@.open_tag) + allow_element(name@, value@),
        }),
        *final(final(xml).w) == *final(old(xml).w),
{
    xml.start_tag("allow");
    xml.attr(name, value);
    xml.end_tag("allow");
    proof {
        reveal_strlit("allow");
        reveal_with_fuel(indentation, 3);
        assert(xml@.text =~= old(xml)@.text + tag_closer(old(xml)@.open_tag) + allow_element(
            name@,
            value@,
        ));
    }
}

/// The start tag of the default policy, still open.
spec fn policy_start() -> Seq<char> {
    seq![' ', ' ', '<', 'p', 'o', 'l', 'i', 'c', 'y', ' '] + "context"@ + seq!['=', '"']
        + "default"@ + seq!['"']
}

/// The end tag of the policy.
spec fn policy_end() -> Seq<char> {
    seq![' ', ' ', '<', '/', 'p', 'o', 'l', 'i', 'c', 'y', '>', '\n']
}

/// Starts the `<policy>` element as the next child of `<busconfig>`.
fn start_policy(xml: &mut XmlWriter<'_>)
    requires
        old(xml)@.depth == 1,
    ensures
        final(xml)@ == (XmlModel {
            open_tag: true,
            depth: 2,
            text: old(xml)@.text + tag_closer(old(xml)@.open_tag) + policy_start(),
        }),
        *final(final(xml).w) == *final(old(xml).w),
{
    xml.start_tag("policy");
    xml.attr("context", "default");
    proof {
        reveal_strlit("policy");
        reveal_strlit("default");
        lemma_plain_attr_value("default"@);
        reveal_with_fuel(indentation, 2);
        assert(xml@.text =~= old(xml)@.text + tag_closer(old(xml)@.open_tag) + policy_start());
    }
}

/// Ends the `<policy>` element after its children.
fn end_policy(xml: &mut XmlWriter<'_>)
    requires
        old(xml)@.depth == 2,
        !old(xml)@.open_tag,
    ensures
        final(xml)@ == (XmlModel {
            open_tag: false,
            depth: 1,
            text: old(xml)@.text + policy_end(),
        }),
        *final(final(xml).w) == *final(old(xml).w),
{
    xml.end_tag("policy");
    proof {
        reveal_strlit("policy");
        reveal_with_fuel(indentation, 2);
        assert(xml@.text =~= old(xml)@.text + policy_end());
    }
}

/// The default policy, element by element.
proof fn lemma_default_policy()
    ensures
        default_policy() == policy_start() + seq!['>', '\n'] + allow_element(
            "receive_requested_reply"@,
            "true"@,
        ) + allow_element("send_destination"@, "*"@) + allow_element("own"@, "*"@) + policy_end(),
{
    reveal_strlit("context");
    reveal_strlit("default");
    reveal_strlit("receive_requested_reply");
    reveal_strlit("true");
    reveal_strlit("send_destination");
    reveal_strlit("own");
    reveal_strlit("*");
    reveal_strlit(
        "  <policy context=\"default\">\n    <allow receive_requested_reply=\"true\"/>\n    <allow send_destination=\"*\"/>\n    <allow own=\"*\"/>\n  </policy>\n",
    );
    let built = policy_start() + seq!['>', '\n'] + allow_element(
        "receive_requested_reply"@,
        "true"@,
    ) + allow_element("send_destination"@, "*"@) + allow_element("own"@, "*"@) + policy_end();
    assert(default_policy() =~= built);
}

/// Writes the default policy as the next child of `<busconfig>`.
fn write_policy(xml: &mut XmlWriter<'_>)
    requires
        old(xml)@.depth == 1,
    ensures
        final(xml)@ == (XmlModel {
            open_tag: false,
            depth: 1,
            text: old(xml)@.text + tag_closer(old(xml)@.open_tag) + default_policy(),
        }),
        *final(final(xml).w) == *final(old(xml).w),
{
    proof {
        reveal_strlit("true");
        reveal_strlit("*");
        lemma_plain_attr_value("true"@);
        lemma_plain_attr_value("*"@);
    }
    start_policy(xml);
    write_allow(xml, "receive_requested_reply", "true");
    write_allow(xml, "send_destination", "*");
    write_allow(xml, "own", "*");
    end_policy(xml);
    proof {
        lemma_default_policy();
        assert(xml@.text =~= old(xml)@.text + tag_closer(old(xml)@.open_tag) + default_policy());
    }
}

impl Config {
    /// The configuration file for this configuration.
    pub fn to_xml(&self) -> (s: String)
        ensures
            s@ == config_document(self@),
    {
        let mut s = String::new();
        s.append(
            "<!DOCTYPE busconfig PUBLIC\n \"-//freedesktop//DTD D-Bus Bus Configuration 1.0//EN\"\n \"http://www.freedesktop.org/standards/dbus/1.0/busconfig.dtd\">",
        );
        s.append("\n");
        let ghost head = doctype() + seq!['\n', '<', 'b', 'u', 's', 'c', 'o', 'n', 'f', 'i', 'g'];
        let ghost mut body: Seq<char> = Seq::empty();

        let mut xml = XmlWriter::new(&mut s);
        xml.start_tag("busconfig");
        assert(xml@.text =~= head) by {
            reveal_strlit("\n");
            reveal_strlit("busconfig");
        }

        if let Some(bus_type) = self.bus_type {
            xml.tag_with_text("type", bus_type_str(bus_type));
            proof {
                lemma_text_element_in_busconfig(head, body, "type"@, bus_type_name(bus_type));
                body = body + text_element(1, "type"@, bus_type_name(bus_type));
            }
        }
        if self.allow_anonymous {
            write_allow_anonymous(&mut xml, Ghost(head), Ghost(body));
            proof {
                body = body + allow_anonymous_element(true);
            }
        }
        assert(body =~= type_element(self@.bus_type) + allow_anonymous_element(
            self@.allow_anonymous,
        ));
        write_text_elements(&mut xml, "listen", &self.listen, Ghost(head), Ghost(body));
        proof {
            body = body + text_elements("listen"@, self@.listen);
        }
        write_auth_elements(&mut xml, &self.auth, Ghost(head), Ghost(body));
        proof {
            body = body + text_elements("auth"@, self@.auth.map_values(|a: Auth| auth_name(a)));
        }
        write_text_elements(&mut xml, "servicedir", &self.service_dirs, Ghost(head), Ghost(body));
        proof {
            body = body + text_elements("servicedir"@, self@.service_dirs);
        }
        assert(body =~= settings(self@));

        let ghost before = xml@.text;
        assert(before + tag_closer(xml@.open_tag) =~= doctype() + "\n<busconfig>\n"@ + settings(
            self@,
        )) by {
            reveal_strlit("\n<busconfig>\n");
        }
        write_policy(&mut xml);
        xml.end_tag("busconfig");
        assert(xml@.text =~= before + tag_closer(body.len() == 0) + default_policy()
            + "</busconfig>\n"@) by {
            reveal_strlit("busconfig");
            reveal_strlit("</busconfig>\n");
        }
        s
    }
}

} // verus!
