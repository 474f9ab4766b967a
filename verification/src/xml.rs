//! The XML of the SOAP login: the envelope that is sent, and the values that
//! are read out of the reply.
use vstd::prelude::*;
use vstd::string::StringExecFns;
use crate::text::opt_text;

verus! {

/// What one node of a parsed document says to a search for a tag name.
#[derive(Debug, Clone)]
pub struct TagProbe {
    /// Whether the node is an element with the tag name that is looked for.
    pub matches: bool,
    /// The node's text: for an element, that of its first child where that
    /// child is a text node.
    pub text: Option<String>,
}

impl View for TagProbe {
    type V = (bool, Option<Seq<char>>);

    open spec fn view(&self) -> (bool, Option<Seq<char>>) {
        (self.matches, opt_text(self.text))
    }
}

/// What a list of probes stands for.
pub open spec fn probe_views(v: Seq<TagProbe>) -> Seq<(bool, Option<Seq<char>>)> {
    v.map_values(|p: TagProbe| p@)
}

/// The probes of the nodes of `body` for `tag_name`, in document order, the
/// root node first; `None` where `body` is not well-formed XML.
pub uninterp spec fn xml_tag_probes(tag_name: Seq<char>, body: Seq<char>) -> Option<
    Seq<(bool, Option<Seq<char>>)>,
>;

/// The text of the first probe that matches, if it has one.
pub open spec fn first_match_text(probes: Seq<(bool, Option<Seq<char>>)>) -> Option<Seq<char>>
    decreases probes.len(),
{
    if probes.len() == 0 {
        None
    } else if probes[0].0 {
        probes[0].1
    } else {
        first_match_text(probes.drop_first())
    }
}

/// Where a probe matches and none before it does, its text is the one that
/// is found, whatever follows.
pub proof fn lemma_first_match(probes: Seq<(bool, Option<Seq<char>>)>, i: int)
    requires
        0 <= i < probes.len(),
        probes[i].0,
        forall|j: int| 0 <= j < i ==> !(#[trigger] probes[j]).0,
    ensures
        first_match_text(probes) == probes[i].1,
    decreases i,
{
    if i > 0 {
        assert(!probes[0].0);
        let rest = probes.drop_first();
        assert(rest[i - 1] == probes[i]);
        assert forall|j: int| 0 <= j < i - 1 implies !(#[trigger] rest[j]).0 by {
            assert(rest[j] == probes[j + 1]);
        }
        lemma_first_match(rest, i - 1);
    }
}

/// Where no probe matches, nothing is found.
pub proof fn lemma_no_match(probes: Seq<(bool, Option<Seq<char>>)>)
    requires
        forall|j: int| 0 <= j < probes.len() ==> !(#[trigger] probes[j]).0,
    ensures
        first_match_text(probes) is None,
    decreases probes.len(),
{
    if probes.len() > 0 {
        assert(!probes[0].0);
        let rest = probes.drop_first();
        assert forall|j: int| 0 <= j < rest.len() implies !(#[trigger] rest[j]).0 by {
            assert(rest[j] == probes[j + 1]);
        }
        lemma_no_match(rest);
    }
}

/// What [`Xml::extract`] returns for a tag name and a document.
pub open spec fn extracted(tag_name: Seq<char>, body: Seq<char>) -> Option<Seq<char>> {
    match xml_tag_probes(tag_name, body) {
        Some(probes) => first_match_text(probes),
        None => None,
    }
}

/// The envelope of a SOAP login for a user name and a password.
pub open spec fn login_envelope(username: Seq<char>, password: Seq<char>) -> Seq<char> {
    "<se:Envelope xmlns:se='http://schemas.xmlsoap.org/soap/envelope/'>"@ + "<se:Header/>"@
        + "<se:Body>"@ + "<login xmlns='urn:partner.soap.sforce.com'>"@ + "<username>"@ + username
        + "</username>"@ + "<password>"@ + password + "</password>"@ + "</login>"@
        + "</se:Body>"@ + "</se:Envelope>"@
}

/// Parses `body` with roxmltree's `Document::parse` and walks the document
/// with `Document::descendants`, asking each node `Node::has_tag_name` for
/// `tag_name` and `Node::text`. The contract only gives the outcome its name:
/// the same tag name and body always give the same probes.
#[verifier::external_body]
fn tag_probes(tag_name: &str, body: &str) -> (r: Option<Vec<TagProbe>>)
    ensures
        r is Some == xml_tag_probes(tag_name@, body@) is Some,
        r matches Some(v) ==> xml_tag_probes(tag_name@, body@) == Some(probe_views(v@)),
{
    let doc = roxmltree::Document::parse(body).ok()?;
    Some(
        doc.descendants().map(
            |n| TagProbe {
                matches: n.has_tag_name(tag_name),
                text: n.text().map(|t| t.to_string()),
            },
        ).collect(),
    )
}

/// The text of the first probe that matches, if it has one. A first match
/// without text ends the search: later matches are not looked at.
pub fn first_text(probes: &Vec<TagProbe>) -> (r: Option<String>)
    ensures
        opt_text(r) == first_match_text(probe_views(probes@)),
{
    let mut i: usize = 0;
    assert(probe_views(probes@).skip(0) =~= probe_views(probes@));
    while i < probes.len()
        invariant
            i <= probes.len(),
            first_match_text(probe_views(probes@)) == first_match_text(
                probe_views(probes@).skip(i as int),
            ),
        decreases probes.len() - i,
    {
        let ghost rest = probe_views(probes@).skip(i as int);
        assert(rest[0] == probes@[i as int]@);
        assert(rest.drop_first() =~= probe_views(probes@).skip(i + 1));
        if probes[i].matches {
            return match &probes[i].text {
                Some(t) => Some(t.clone()),
                None => None,
            };
        }
        i += 1;
    }
    None
}

/// The XML that the SOAP login speaks.
pub struct Xml {}

impl Xml {
    /// The text of the first node of `body`, in document order, whose tag
    /// name is `tag_name`, whatever its namespace. `None` where `body` is not
    /// well-formed, where no node has that name, and where the first such
    /// node has no text.
    pub fn extract(tag_name: &str, body: &str) -> (r: Option<String>)
        ensures
            opt_text(r) == extracted(tag_name@, body@),
    {
        match tag_probes(tag_name, body) {
            Some(probes) => first_text(&probes),
            None => None,
        }
    }

    /// The envelope of a SOAP login. The user name and the password are put
    /// in as they are: nothing is escaped.
    pub fn create_login_envelope(username: &str, password: &str) -> (r: String)
        ensures
            r@ == login_envelope(username@, password@),
    {
        let mut out = String::from_str(
            "<se:Envelope xmlns:se='http://schemas.xmlsoap.org/soap/envelope/'>",
        );
        out.append("<se:Header/>");
        out.append("<se:Body>");
        out.append("<login xmlns='urn:partner.soap.sforce.com'>");
        out.append("<username>");
        out.append(username);
        out.append("</username>");
        out.append("<password>");
        out.append(password);
        out.append("</password>");
        out.append("</login>");
        out.append("</se:Body>");
        out.append("</se:Envelope>");
        out
    }
}

} // verus!
