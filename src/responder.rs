use vstd::prelude::*;

verus! {

/// The body formats a response may be written in.
#[derive(Clone, Copy, Debug, PartialEq, Eq, Structural)]
pub enum MediaType {
    Json,
    MsgPack,
    Binary,
}

/// A response whose body format is chosen per request.
pub struct DynResponse<C> {
    pub content: C,
    /// The format fixed by the handler, if any.
    pub media_type: Option<MediaType>,
    /// The HTTP status code.
    pub status: u16,
}

impl<C> DynResponse<C> {
    /// A 200 response in a format left to the request.
    pub fn new(content: C) -> (r: DynResponse<C>)
        ensures
            r.content == content,
            r.media_type is None,
            r.status == 200,
    {
        DynResponse { content, media_type: None, status: 200 }
    }

    pub fn json(&mut self)
        ensures
            final(self).media_type == Some(MediaType::Json),
            final(self).content == old(self).content,
            final(self).status == old(self).status,
    {
        self.media_type = Some(MediaType::Json);
    }

    pub fn msgpack(&mut self)
        ensures
            final(self).media_type == Some(MediaType::MsgPack),
            final(self).content == old(self).content,
            final(self).status == old(self).status,
    {
        self.media_type = Some(MediaType::MsgPack);
    }

    pub fn bincode(&mut self)
        ensures
            final(self).media_type == Some(MediaType::Binary),
            final(self).content == old(self).content,
            final(self).status == old(self).status,
    {
        self.media_type = Some(MediaType::Binary);
    }

    pub fn status(&mut self, status: u16)
        ensures
            final(self).status == status,
            final(self).content == old(self).content,
            final(self).media_type == old(self).media_type,
    {
        self.status = status;
    }

    /// The format to write: the handler's, else the first the request
    /// accepts, else JSON.
    pub open spec fn spec_chosen(&self, accepted: Option<MediaType>) -> MediaType {
        match self.media_type {
            Some(m) => m,
            None => match accepted {
                Some(a) => a,
                None => MediaType::Json,
            },
        }
    }

    /// The format the body is written in; None where it cannot be written
    /// (only JSON and MessagePack can).
    pub fn encoding(&self, accepted: Option<MediaType>) -> (r: Option<MediaType>)
        ensures
            self.spec_chosen(accepted) != MediaType::Binary ==> r == Some(
                self.spec_chosen(accepted),
            ),
            self.spec_chosen(accepted) == MediaType::Binary ==> r is None,
    {
        let chosen = match self.media_type {
            Some(m) => m,
            None => match accepted {
                Some(a) => a,
                None => MediaType::Json,
            },
        };
        match chosen {
            MediaType::Binary => None,
            m => Some(m),
        }
    }
}

/// Result codes reported in response bodies.
#[derive(Clone, Copy, Debug, PartialEq, Eq, Structural)]
pub enum Code {
    Success,
}

impl Code {
    pub fn value(&self) -> (r: u16)
        ensures
            r == 20000,
    {
        20000
    }
}

} // verus!
