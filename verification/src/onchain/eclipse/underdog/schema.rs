//! What is sent to Underdog and what comes back.

use vstd::prelude::*;

verus! {

/// The description of a collection that is to be created.
#[derive(Debug)]
pub struct CollectionsBody {
    account: String,
    name: String,
    image: String,
    description: String,
    external_url: String,
    soulbound: bool,
    transferable: bool,
    burnable: bool,
}

/// The description of a collection as plain values.
pub struct CollectionsBodyView {
    pub account: Seq<char>,
    pub name: Seq<char>,
    pub image: Seq<char>,
    pub description: Seq<char>,
    pub external_url: Seq<char>,
    pub soulbound: bool,
    pub transferable: bool,
    pub burnable: bool,
}

impl View for CollectionsBody {
    type V = CollectionsBodyView;

    closed spec fn view(&self) -> CollectionsBodyView {
        CollectionsBodyView {
            account: self.account@,
            name: self.name@,
            image: self.image@,
            description: self.description@,
            external_url: self.external_url@,
            soulbound: self.soulbound,
            transferable: self.transferable,
            burnable: self.burnable,
        }
    }
}

impl Default for CollectionsBody {
    /// A description with empty texts and every flag off.
    fn default() -> (body: CollectionsBody)
        ensures
            body@ == (CollectionsBodyView {
                account: Seq::<char>::empty(),
                name: Seq::<char>::empty(),
                image: Seq::<char>::empty(),
                description: Seq::<char>::empty(),
                external_url: Seq::<char>::empty(),
                soulbound: false,
                transferable: false,
                burnable: false,
            }),
    {
        CollectionsBody {
            account: String::new(),
            name: String::new(),
            image: String::new(),
            description: String::new(),
            external_url: String::new(),
            soulbound: false,
            transferable: false,
            burnable: false,
        }
    }
}

impl CollectionsBody {
    /// The same description with this account.
    pub fn account(self, account: &str) -> (body: CollectionsBody)
        ensures
            body@ == (CollectionsBodyView { account: account@, ..self@ }),
    {
        let mut body = self;
        body.account = account.to_owned();
        body
    }

    /// The same description with this name.
    pub fn name(self, name: &str) -> (body: CollectionsBody)
        ensures
            body@ == (CollectionsBodyView { name: name@, ..self@ }),
    {
        let mut body = self;
        body.name = name.to_owned();
        body
    }

    /// The same description with this image.
    pub fn image(self, image: &str) -> (body: CollectionsBody)
        ensures
            body@ == (CollectionsBodyView { image: image@, ..self@ }),
    {
        let mut body = self;
        body.image = image.to_owned();
        body
    }

    /// The same description with this text.
    pub fn description(self, description: &str) -> (body: CollectionsBody)
        ensures
            body@ == (CollectionsBodyView { description: description@, ..self@ }),
    {
        let mut body = self;
        body.description = description.to_owned();
        body
    }

    /// The same description with this link.
    pub fn external_url(self, external_url: &str) -> (body: CollectionsBody)
        ensures
            body@ == (CollectionsBodyView { external_url: external_url@, ..self@ }),
    {
        let mut body = self;
        body.external_url = external_url.to_owned();
        body
    }

    /// The same description, bound to its owner or not.
    pub fn soulbound(self, soulbound: bool) -> (body: CollectionsBody)
        ensures
            body@ == (CollectionsBodyView { soulbound, ..self@ }),
    {
        let mut body = self;
        body.soulbound = soulbound;
        body
    }

    /// The same description, transferable or not.
    pub fn transferable(self, transferable: bool) -> (body: CollectionsBody)
        ensures
            body@ == (CollectionsBodyView { transferable, ..self@ }),
    {
        let mut body = self;
        body.transferable = transferable;
        body
    }

    /// The same description, burnable or not.
    pub fn burnable(self, burnable: bool) -> (body: CollectionsBody)
        ensures
            body@ == (CollectionsBodyView { burnable, ..self@ }),
    {
        let mut body = self;
        body.burnable = burnable;
        body
    }

    /// The account.
    pub fn get_account(&self) -> (text: &String)
        ensures
            text@ == self@.account,
    {
        &self.account
    }

    /// The name.
    pub fn get_name(&self) -> (text: &String)
        ensures
            text@ == self@.name,
    {
        &self.name
    }

    /// The image.
    pub fn get_image(&self) -> (text: &String)
        ensures
            text@ == self@.image,
    {
        &self.image
    }

    /// The text.
    pub fn get_description(&self) -> (text: &String)
        ensures
            text@ == self@.description,
    {
        &self.description
    }

    /// The link.
    pub fn get_external_url(&self) -> (text: &String)
        ensures
            text@ == self@.external_url,
    {
        &self.external_url
    }

    /// Whether the collection is bound to its owner.
    pub fn is_soulbound(&self) -> (flag: bool)
        ensures
            flag == self@.soulbound,
    {
        self.soulbound
    }

    /// Whether the collection is transferable.
    pub fn is_transferable(&self) -> (flag: bool)
        ensures
            flag == self@.transferable,
    {
        self.transferable
    }

    /// Whether the collection is burnable.
    pub fn is_burnable(&self) -> (flag: bool)
        ensures
            flag == self@.burnable,
    {
        self.burnable
    }
}

/// The answer to the request: a transaction, in base64, that creates the
/// collection once it is signed and sent.
#[derive(Debug)]
pub struct CollectionsResponse {
    pub transaction: String,
}

} // verus!
