use super::StreamCommand;
use crate::misc::{clone_lang, lang_view, LangCode, ObjDest};
use crate::protocol::{Request, Response, ResponseView};
use crate::result::{Error, ErrorView};
use vstd::prelude::*;

verus! {

/// Text to index for an object, with an optional language.
#[derive(Debug)]
pub struct PushRequest {
    pub dest: ObjDest,
    pub text: String,
    pub lang: Option<LangCode>,
}

impl PushRequest {
    /// Indexes `text` for object `dest`, with no language given.
    pub fn new(dest: ObjDest, text: &str) -> (r: PushRequest)
        ensures
            r.dest@ == dest@,
            r.text@ == text@,
            r.lang is None,
    {
        PushRequest { dest, text: text.to_owned(), lang: None }
    }

    /// The request with language `code`.
    pub fn lang(self, code: LangCode) -> (r: PushRequest)
        ensures
            r.dest@ == self.dest@,
            r.text@ == self.text@,
            lang_view(r.lang) == Some(code@),
    {
        let mut r = self;
        r.lang = Some(code);
        r
    }

    /// The request with a detected language: the language given stays, and
    /// `detected` applies only where none was given.
    pub fn or_detected(self, detected: Option<LangCode>) -> (r: PushRequest)
        ensures
            r.dest@ == self.dest@,
            r.text@ == self.text@,
            lang_view(r.lang) == match self.lang {
                Some(l) => Some(l@),
                None => lang_view(detected),
            },
    {
        let mut r = self;
        if r.lang.is_none() {
            r.lang = detected;
        }
        r
    }
}

/// Indexes text for an object.
#[derive(Debug)]
pub struct PushCommand {
    pub req: PushRequest,
}

impl StreamCommand for PushCommand {
    type Response = ();

    open spec fn sends(&self, req: Request) -> bool {
        req matches Request::Push { collection, bucket, object, terms, lang } && collection@
            == self.req.dest@.collection && bucket@ == self.req.dest@.bucket && object@
            == self.req.dest@.object && terms@ == self.req.text@ && lang_view(lang) == lang_view(self.req.lang)
    }

    open spec fn receives(&self, res: ResponseView, r: Result<(), Error>) -> bool {
        match res {
            ResponseView::Okay => r is Ok,
            _ => r is Err && r->Err_0@ == ErrorView::WrongResponse,
        }
    }

    fn request(&self) -> (r: Request) {
        let req = &self.req;
        Request::Push {
            collection: req.dest.collection().clone(),
            bucket: req.dest.bucket(),
            object: req.dest.object().clone(),
            terms: req.text.clone(),
            lang: clone_lang(&req.lang),
        }
    }

    fn receive(&self, res: Response) -> (r: Result<(), Error>) {
        match res {
            Response::Okay => Ok(()),
            _ => Err(Error::WrongResponse),
        }
    }
}

} // verus!
