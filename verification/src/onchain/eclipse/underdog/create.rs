//! Making up a collection.

use super::schema::{CollectionsBody, CollectionsBodyView};
use crate::utils::misc::{push_text, toss_coin};
use vstd::prelude::*;

verus! {

/// Makes up a word.
///
/// Calls `fake::Fake::fake` on `fake::faker::lorem::zh_tw::Word`, which
/// picks a word of a fixed list at random. Nothing is claimed of the word.
#[verifier::external_body]
fn fake_word() -> String {
    fake::Fake::fake(&fake::faker::lorem::zh_tw::Word())
}

/// Makes up the last part of a domain name.
///
/// Calls `fake::Fake::fake` on `fake::faker::internet::en::DomainSuffix`,
/// which picks a suffix of a fixed list at random. Nothing is claimed of it.
#[verifier::external_body]
fn fake_domain_suffix() -> String {
    fake::Fake::fake(&fake::faker::internet::en::DomainSuffix())
}

/// Makes up a sentence.
///
/// Calls `fake::Fake::fake` on `fake::faker::lorem::en::Sentence` for 10 to
/// 19 words, which joins that many words picked at random and ends them
/// with a full stop. Nothing is claimed of the sentence.
#[verifier::external_body]
fn fake_sentence() -> String {
    fake::Fake::fake(&fake::faker::lorem::en::Sentence(10..20))
}

/// The link to a domain: `https://`, the domain, a dot and its suffix.
pub open spec fn spec_url(domain: Seq<char>, tld: Seq<char>) -> Seq<char> {
    "https://"@ + domain + "."@ + tld
}

/// Writes the link to a domain.
pub fn url_from(domain: &str, tld: &str) -> (url: String)
    ensures
        url@ == spec_url(domain@, tld@),
{
    let mut url = "https://".to_owned();
    push_text(&mut url, domain);
    push_text(&mut url, ".");
    push_text(&mut url, tld);
    url
}

/// The text is a link to some domain.
pub open spec fn spec_is_url(text: Seq<char>) -> bool {
    exists|domain: Seq<char>, tld: Seq<char>| text == #[trigger] spec_url(domain, tld)
}

/// Makes up a link: to a domain that is a made-up word, with a made-up suffix.
pub fn generate_random_url() -> (url: String)
    ensures
        spec_is_url(url@),
{
    let domain = fake_word();
    let tld = fake_domain_suffix();
    let url = url_from(domain.as_str(), tld.as_str());
    proof {
        let _ = spec_url(domain@, tld@);
    }
    url
}

/// Makes up the description of a collection for an account: a name, a text
/// and the three flags are drawn at random, image and link are made-up links.
pub fn random_collection_body(account: &str) -> (body: CollectionsBody)
    ensures
        body@.account == account@,
        spec_is_url(body@.image),
        spec_is_url(body@.external_url),
{
    let name = fake_word();
    let image = generate_random_url();
    let description = fake_sentence();
    let external_url = generate_random_url();
    let soulbound = toss_coin();
    let transferable = toss_coin();
    let burnable = toss_coin();
    CollectionsBody::default().account(account).name(name.as_str()).image(
        image.as_str(),
    ).description(description.as_str()).external_url(external_url.as_str()).soulbound(
        soulbound,
    ).transferable(transferable).burnable(burnable)
}

} // verus!
