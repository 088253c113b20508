use dbus_launch::xml::XmlWriter;
use dbus_launch::{escape_path, Auth, BusType, Config};

/// Verify xml config serialization.
#[test]
fn to_xml() {
    let mut c = Config::default();
    c.bus_type = Some(BusType::Session);
    c.listen.push("unix:tmpdir=/tmp".into());
    c.auth.push(Auth::Anonymous);
    c.auth.push(Auth::External);
    c.auth.push(Auth::DBusCookieSha1);
    c.service_dirs.push("/tmp/servicedir".into());

    let actual = c.to_xml();
    let expected = r#"<!DOCTYPE busconfig PUBLIC
 "-//freedesktop//DTD D-Bus Bus Configuration 1.0//EN"
 "http://www.freedesktop.org/standards/dbus/1.0/busconfig.dtd">
<busconfig>
  <type>session</type>
  <listen>unix:tmpdir=/tmp</listen>
  <auth>ANONYMOUS</auth>
  <auth>EXTERNAL</auth>
  <auth>DBUS_COOKIE_SHA1</auth>
  <servicedir>/tmp/servicedir</servicedir>
  <policy context="default">
    <allow receive_requested_reply="true"/>
    <allow send_destination="*"/>
    <allow own="*"/>
  </policy>
</busconfig>
"#;

    assert_eq!(expected, actual, "\n\n{}.\n\n{}.", expected, actual);
}

#[test]
fn escape() {
    assert_eq!("/", &escape_path("/".as_bytes()));
    assert_eq!("/tmp/a%23b", &escape_path("/tmp/a#b".as_bytes()));
}

#[test]
fn escape_keeps_unreserved_bytes() {
    let plain = "-0123456789ABCXYZabcxyz_/.\\";
    assert_eq!(plain, &escape_path(plain.as_bytes()));
}

#[test]
fn escape_of_nothing_is_nothing() {
    assert_eq!("", &escape_path(&[]));
}

#[test]
fn escape_writes_lower_case_hexadecimal() {
    assert_eq!("%20%3a%7e%ff%c3%a9", &escape_path(&[0x20, 0x3a, 0x7e, 0xff, 0xc3, 0xa9]));
}

#[test]
fn escape_pads_a_single_digit_with_a_space() {
    assert_eq!("% a% 0% f%10", &escape_path(&[0x0a, 0x00, 0x0f, 0x10]));
}

#[test]
fn to_xml_of_the_default_configuration() {
    let expected = r#"<!DOCTYPE busconfig PUBLIC
 "-//freedesktop//DTD D-Bus Bus Configuration 1.0//EN"
 "http://www.freedesktop.org/standards/dbus/1.0/busconfig.dtd">
<busconfig>
  <policy context="default">
    <allow receive_requested_reply="true"/>
    <allow send_destination="*"/>
    <allow own="*"/>
  </policy>
</busconfig>
"#;
    assert_eq!(expected, Config::default().to_xml());
}

#[test]
fn to_xml_with_every_setting() {
    let mut c = Config::default();
    c.bus_type = Some(BusType::System);
    c.allow_anonymous = true;
    c.listen.push("tcp:host=localhost".into());
    c.listen.push("unix:dir=/a&b".into());
    c.service_dirs.push("/srv/<one>".into());
    c.service_dirs.push("/srv/two".into());
    let expected = r#"<!DOCTYPE busconfig PUBLIC
 "-//freedesktop//DTD D-Bus Bus Configuration 1.0//EN"
 "http://www.freedesktop.org/standards/dbus/1.0/busconfig.dtd">
<busconfig>
  <type>system</type>
  <allow_anonymous/>
  <listen>tcp:host=localhost</listen>
  <listen>unix:dir=/a&amp;b</listen>
  <servicedir>/srv/&lt;one&gt;</servicedir>
  <servicedir>/srv/two</servicedir>
  <policy context="default">
    <allow receive_requested_reply="true"/>
    <allow send_destination="*"/>
    <allow own="*"/>
  </policy>
</busconfig>
"#;
    assert_eq!(expected, c.to_xml());
}

#[test]
fn to_xml_with_anonymous_access_alone() {
    let mut c = Config::default();
    c.allow_anonymous = true;
    let xml = c.to_xml();
    assert!(xml.contains("<busconfig>\n  <allow_anonymous/>\n  <policy context=\"default\">\n"));
}

#[test]
fn default_configuration_is_empty() {
    let c = Config::default();
    assert_eq!(None, c.bus_type);
    assert!(!c.allow_anonymous);
    assert!(c.listen.is_empty());
    assert!(c.auth.is_empty());
    assert!(c.service_dirs.is_empty());
}

#[test]
fn writer_leaves_a_start_tag_open() {
    let mut s = String::from("x");
    let mut xml = XmlWriter::new(&mut s);
    xml.start_tag("a");
    assert_eq!(1, xml.started);
    assert_eq!("x<a", s);
}

#[test]
fn writer_closes_an_empty_element_in_place() {
    let mut s = String::new();
    let mut xml = XmlWriter::new(&mut s);
    xml.start_tag("a");
    xml.end_tag("a");
    assert_eq!(0, xml.started);
    assert_eq!("<a/>\n", s);
}

#[test]
fn writer_nests_and_indents() {
    let mut s = String::new();
    let mut xml = XmlWriter::new(&mut s);
    xml.start_tag("a");
    xml.start_tag("b");
    xml.start_tag("c");
    xml.end_tag("c");
    xml.tag_with_text("d", "text");
    xml.end_tag("b");
    xml.end_tag("a");
    assert_eq!("<a>\n  <b>\n    <c/>\n    <d>text</d>\n  </b>\n</a>\n", s);
}

#[test]
fn writer_indents_by_two_spaces_a_level() {
    let mut s = String::new();
    let mut xml = XmlWriter::new(&mut s);
    xml.indent();
    xml.start_tag("a");
    xml.start_tag("b");
    xml.indent();
    assert_eq!("<a>\n  <b    ", s);
}

#[test]
fn writer_escapes_text() {
    let mut s = String::new();
    let mut xml = XmlWriter::new(&mut s);
    xml.escaped_text("a<b>&c'\"d\u{e9}");
    assert_eq!("a&lt;b&gt;&amp;c'\"d\u{e9}", s);
}

#[test]
fn writer_escapes_attribute_values() {
    let mut s = String::new();
    let mut xml = XmlWriter::new(&mut s);
    xml.escaped_attr("a<b>&c'\"d\u{e9}");
    assert_eq!("a&lt;b&gt;&amp;c&apos;&quot;d\u{e9}", s);
}

#[test]
fn writer_adds_attributes_to_the_open_tag() {
    let mut s = String::new();
    let mut xml = XmlWriter::new(&mut s);
    xml.start_tag("a");
    xml.attr("k", "v\"w");
    xml.attr("l", "");
    xml.end_tag("a");
    assert_eq!("<a k=\"v&quot;w\" l=\"\"/>\n", s);
}

#[test]
fn writer_puts_text_elements_on_their_own_lines() {
    let mut s = String::new();
    let mut xml = XmlWriter::new(&mut s);
    xml.tag_with_text("a", "1 < 2");
    xml.tag_with_text("b", "");
    assert_eq!("<a>1 &lt; 2</a>\n<b></b>\n", s);
}
