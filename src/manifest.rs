//! The application manifest: an XML document whose keys are read with
//! namespaced XPath queries, once, when the sources are gathered.

use vstd::prelude::*;
use crate::error::TizenError;
use crate::provider::pair_lookup;
use crate::registry::{all_config_types, all_keys, get_manifest_key, manifest_key_spec, ConfigType};
use crate::text::opt_view;

verus! {

#[verifier::external_type_specification]
#[verifier::external_body]
pub struct ExPackage(sxd_document::Package);

#[verifier::external_type_specification]
#[verifier::external_body]
pub struct ExXmlError(sxd_document::parser::Error);

/// The prefix that the manifest queries use for the packages namespace.
pub const MANIFEST_PREFIX: &'static str = "ns";

/// The namespace of Tizen package manifests.
pub const MANIFEST_NAMESPACE: &'static str = "http://tizen.org/ns/packages";

/// Whether `sxd_document::parser::parse` accepts a text as an XML document.
pub uninterp spec fn xml_parses(text: Seq<char>) -> bool;

/// The string value of `query`, with the prefix `ns` bound to the packages
/// namespace, evaluated at the root of the document parsed from `text`;
/// `None` when the query does not compile or its evaluation fails.
pub uninterp spec fn manifest_answer(text: Seq<char>, query: Seq<char>) -> Option<Seq<char>>;

/// A parsed manifest, with the text it was parsed from.
pub struct ManifestDocument {
    package: sxd_document::Package,
    text: Ghost<Seq<char>>,
}

impl ManifestDocument {
    /// The text the document was parsed from.
    pub closed spec fn source(&self) -> Seq<char> {
        self.text@
    }
}

/// Relies on `sxd_document::parser::parse`: builds the document tree of an
/// XML text, or says where the text is not well-formed; which of the two
/// depends on the text alone.
#[verifier::external_body]
fn parse_xml(text: &str) -> (r: Result<sxd_document::Package, sxd_document::parser::Error>)
    ensures
        r is Ok <==> xml_parses(text@),
{
    sxd_document::parser::parse(text)
}

/// Relies on the `Display` impl of `sxd_document::parser::Error`: the
/// position of the failure and what was expected there.
#[verifier::external_body]
fn xml_error_text(e: &sxd_document::parser::Error) -> (r: String) {
    e.to_string()
}

/// Relies on `sxd_xpath`: `Factory::build` compiles `query`,
/// `Context::set_namespace` binds `prefix` to `uri`, `XPath::evaluate`
/// evaluates the query at the document's root and `Value::string` gives the
/// string value of the result. `None` when the query does not compile, is
/// empty, or its evaluation fails. A query may only use a bound prefix
/// (sxd_xpath panics on another), hence the manifest queries alone.
#[verifier::external_body]
fn evaluate_xpath(doc: &ManifestDocument, prefix: &str, uri: &str, query: &str) -> (r: Option<String>)
    requires
        prefix@ == MANIFEST_PREFIX@,
        uri@ == MANIFEST_NAMESPACE@,
        is_manifest_query(query@),
    ensures
        opt_view(r) == manifest_answer(doc.source(), query@),
{
    let xpath = match sxd_xpath::Factory::new().build(query) {
        Ok(Some(x)) => x,
        _ => return None,
    };
    let mut context = sxd_xpath::Context::new();
    context.set_namespace(prefix, uri);
    match xpath.evaluate(&context, doc.package.as_document().root()) {
        Ok(value) => Some(value.string()),
        Err(_) => None,
    }
}

/// Whether `query` is the manifest query of some key.
pub open spec fn is_manifest_query(query: Seq<char>) -> bool {
    exists|k: ConfigType| manifest_key_spec(k) == Some(query)
}

/// Every pair holds a query with what it evaluates to in `text`.
pub open spec fn answers_hold(text: Seq<char>, answers: Seq<(String, String)>) -> bool {
    forall|m: int|
        0 <= m < answers.len() ==> manifest_answer(text, #[trigger] answers[m].0@) == Some(
            answers[m].1@,
        )
}

proof fn lemma_lookup_answers(text: Seq<char>, answers: Seq<(String, String)>, q: Seq<char>)
    requires
        answers_hold(text, answers),
    ensures
        pair_lookup(answers, q) == (if exists|m: int| 0 <= m < answers.len() && #[trigger] answers[m].0@ == q {
            manifest_answer(text, q)
        } else {
            None
        }),
    decreases answers.len(),
{
    if answers.len() > 0 {
        let rest = answers.drop_first();
        assert forall|m: int| 0 <= m < rest.len() implies manifest_answer(text, #[trigger] rest[m].0@) == Some(rest[m].1@) by {
            assert(rest[m] == answers[m + 1]);
        }
        lemma_lookup_answers(text, rest, q);
        if answers[0].0@ != q {
            if exists|m: int| 0 <= m < answers.len() && #[trigger] answers[m].0@ == q {
                let m = choose|m: int| 0 <= m < answers.len() && #[trigger] answers[m].0@ == q;
                assert(rest[m - 1].0@ == q);
            }
            if exists|m: int| 0 <= m < rest.len() && #[trigger] rest[m].0@ == q {
                let m = choose|m: int| 0 <= m < rest.len() && #[trigger] rest[m].0@ == q;
                assert(answers[m + 1].0@ == q);
            }
        } else {
            assert(answers[0].0@ == q);
        }
    }
}

/// Parses the manifest text and evaluates the manifest query of every key
/// against it. The text parses exactly when the result is `Ok`; then each
/// key's query is paired with what it evaluates to, and a query that does
/// not evaluate has no pair.
pub fn read_manifest(text: &str) -> (r: Result<Vec<(String, String)>, TizenError>)
    ensures
        r is Ok <==> xml_parses(text@),
        r matches Ok(answers) ==> forall|k: ConfigType|
            #[trigger] manifest_key_spec(k) matches Some(q) ==> pair_lookup(answers@, q)
                == manifest_answer(text@, q),
{
    let package = match parse_xml(text) {
        Ok(d) => d,
        Err(e) => {
            return Err(TizenError::new(xml_error_text(&e)));
        },
    };
    let doc = ManifestDocument { package, text: Ghost(text@) };
    let keys = all_config_types();
    let n = keys.len();
    let mut answers: Vec<(String, String)> = Vec::new();
    let mut i: usize = 0;
    while i < n
        invariant
            n == keys@.len(),
            i <= n,
            doc.source() == text@,
            answers_hold(text@, answers@),
            forall|j: int|
                0 <= j < i && #[trigger] manifest_key_spec(keys@[j]) is Some && manifest_answer(
                    text@,
                    manifest_key_spec(keys@[j])->0,
                ) is Some ==> exists|m: int|
                    0 <= m < answers@.len() && #[trigger] answers@[m].0@ == manifest_key_spec(
                        keys@[j],
                    )->0,
        decreases n - i,
    {
        if let Some(query) = get_manifest_key(keys[i]) {
            assert(manifest_key_spec(keys@[i as int]) == Some(query@));
            if let Some(value) = evaluate_xpath(&doc, MANIFEST_PREFIX, MANIFEST_NAMESPACE, query.as_str()) {
                let ghost before = answers@;
                answers.push((query, value));
                assert(answers@[before.len() as int] == (query, value));
                assert forall|j: int|
                    0 <= j <= i && #[trigger] manifest_key_spec(keys@[j]) is Some && manifest_answer(
                        text@,
                        manifest_key_spec(keys@[j])->0,
                    ) is Some implies exists|m: int|
                    0 <= m < answers@.len() && #[trigger] answers@[m].0@ == manifest_key_spec(keys@[j])->0 by {
                    if j < i {
                        let q = manifest_key_spec(keys@[j])->0;
                        let m = choose|m: int| 0 <= m < before.len() && #[trigger] before[m].0@ == q;
                        assert(answers@[m] == before[m]);
                    } else {
                        assert(answers@[before.len() as int].0@ == query@);
                    }
                }
            }
        }
        i = i + 1;
    }
    proof {
        assert forall|k: ConfigType| #[trigger] manifest_key_spec(k) is Some implies pair_lookup(
            answers@,
            manifest_key_spec(k)->0,
        ) == manifest_answer(text@, manifest_key_spec(k)->0) by {
            let q = manifest_key_spec(k)->0;
            lemma_lookup_answers(text@, answers@, q);
            assert(all_keys().contains(k));
            let j = all_keys().index_of(k);
            assert(keys@[j] == k);
        }
    }
    Ok(answers)
}

} // verus!
