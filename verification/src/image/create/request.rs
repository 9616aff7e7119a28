//! The request that pulls or imports an image.

use crate::http::url::target_text;
use crate::path::{filled_param, Target};
use vstd::prelude::*;

verus! {

/// Accumulates the fields of a [`Request`].
#[derive(Debug)]
pub struct RequestBuilder {
    pub from_image: String,
    pub from_src: String,
    pub repo: String,
    pub tag: String,
    pub message: String,
    pub platform: String,
}

impl View for RequestBuilder {
    type V = RequestModel;

    open spec fn view(&self) -> RequestModel {
        RequestModel {
            from_image: self.from_image.deep_view(),
            from_src: self.from_src.deep_view(),
            repo: self.repo.deep_view(),
            tag: self.tag.deep_view(),
            message: self.message.deep_view(),
            platform: self.platform.deep_view(),
        }
    }
}

impl DeepView for RequestBuilder {
    type V = RequestModel;

    open spec fn deep_view(&self) -> RequestModel {
        self@
    }
}

/// The request that pulls or imports an image.
#[derive(Debug)]
pub struct Request {
    pub from_image: String,
    pub from_src: String,
    pub repo: String,
    pub tag: String,
    pub message: String,
    pub platform: String,
}

/// What a [`Request`] or its builder holds.
pub struct RequestModel {
    pub from_image: Seq<char>,
    pub from_src: Seq<char>,
    pub repo: Seq<char>,
    pub tag: Seq<char>,
    pub message: Seq<char>,
    pub platform: Seq<char>,
}

impl View for Request {
    type V = RequestModel;

    open spec fn view(&self) -> RequestModel {
        RequestModel {
            from_image: self.from_image.deep_view(),
            from_src: self.from_src.deep_view(),
            repo: self.repo.deep_view(),
            tag: self.tag.deep_view(),
            message: self.message.deep_view(),
            platform: self.platform.deep_view(),
        }
    }
}

impl DeepView for Request {
    type V = RequestModel;

    open spec fn deep_view(&self) -> RequestModel {
        self@
    }
}

/// The parameters of the request: `fromImage`, `fromSrc`, `repo`, `tag`,
/// `message` and `platform`, in this order, each where it is not empty.
pub open spec fn image_params(m: RequestModel) -> Seq<(Seq<char>, Seq<char>)> {
    filled_param("fromImage"@, m.from_image) + filled_param("fromSrc"@, m.from_src) + filled_param(
        "repo"@,
        m.repo,
    ) + filled_param("tag"@, m.tag) + filled_param("message"@, m.message) + filled_param(
        "platform"@,
        m.platform,
    )
}

impl RequestBuilder {
    /// A builder with nothing set.
    pub fn new() -> (b: Self)
        ensures
            b@ == (RequestModel {
                from_image: Seq::empty(),
                from_src: Seq::empty(),
                repo: Seq::empty(),
                tag: Seq::empty(),
                message: Seq::empty(),
                platform: Seq::empty(),
            }),
    {
        let b = RequestBuilder {
            from_image: String::new(),
            from_src: String::new(),
            repo: String::new(),
            tag: String::new(),
            message: String::new(),
            platform: String::new(),
        };
        b
    }

    /// Sets the name of the image to pull.
    pub fn image(self, image: &str) -> (ret: Self)
        ensures
            ret@ == (RequestModel { from_image: image@, ..self@ }),
    {
        let mut ret = self;
        ret.from_image = image.to_owned();
        ret
    }

    /// Sets the source to import from.
    pub fn source(self, source: &str) -> (ret: Self)
        ensures
            ret@ == (RequestModel { from_src: source@, ..self@ }),
    {
        let mut ret = self;
        ret.from_src = source.to_owned();
        ret
    }

    /// Sets the repository name given to an imported image.
    pub fn repo(self, repo: &str) -> (ret: Self)
        ensures
            ret@ == (RequestModel { repo: repo@, ..self@ }),
    {
        let mut ret = self;
        ret.repo = repo.to_owned();
        ret
    }

    /// Sets the tag or digest.
    pub fn tag(self, tag: &str) -> (ret: Self)
        ensures
            ret@ == (RequestModel { tag: tag@, ..self@ }),
    {
        let mut ret = self;
        ret.tag = tag.to_owned();
        ret
    }

    /// Sets the commit message of an imported image.
    pub fn message(self, message: &str) -> (ret: Self)
        ensures
            ret@ == (RequestModel { message: message@, ..self@ }),
    {
        let mut ret = self;
        ret.message = message.to_owned();
        ret
    }

    /// Sets the platform, as `os[/arch[/variant]]`.
    pub fn platform(self, platform: &str) -> (ret: Self)
        ensures
            ret@ == (RequestModel { platform: platform@, ..self@ }),
    {
        let mut ret = self;
        ret.platform = platform.to_owned();
        ret
    }

    /// The request with the fields set so far; the tag is `latest` where
    /// none was set.
    pub fn build(self) -> (res: Request)
        ensures
            res@ == (RequestModel {
                tag: if self@.tag.len() == 0 {
                    "latest"@
                } else {
                    self@.tag
                },
                ..self@
            }),
    {
        let tag = if self.tag.as_str().is_empty() {
            "latest".to_owned()
        } else {
            self.tag
        };
        Request {
            from_image: self.from_image,
            from_src: self.from_src,
            repo: self.repo,
            tag,
            message: self.message,
            platform: self.platform,
        }
    }
}

impl Request {
    /// The name of the image to pull.
    pub fn image(&self) -> (s: &str)
        ensures
            s@ == self.from_image@,
    {
        self.from_image.as_str()
    }

    /// The source to import from.
    pub fn source(&self) -> (s: &str)
        ensures
            s@ == self.from_src@,
    {
        self.from_src.as_str()
    }

    /// The repository name given to an imported image.
    pub fn repo(&self) -> (s: &str)
        ensures
            s@ == self.repo@,
    {
        self.repo.as_str()
    }

    /// The tag or digest.
    pub fn tag(&self) -> (s: &str)
        ensures
            s@ == self.tag@,
    {
        self.tag.as_str()
    }

    /// The commit message of an imported image.
    pub fn message(&self) -> (s: &str)
        ensures
            s@ == self.message@,
    {
        self.message.as_str()
    }

    /// The platform.
    pub fn platform(&self) -> (s: &str)
        ensures
            s@ == self.platform@,
    {
        self.platform.as_str()
    }

    /// The target of the request: `/images/create` with the parameters of
    /// [`image_params`].
    pub fn get_path(&self) -> (s: String)
        ensures
            s@ == target_text("/images/create"@, image_params(self@)),
    {
        let mut target = Target::new("/images/create".to_owned());
        if !self.from_image.as_str().is_empty() {
            target.add("fromImage", self.from_image.as_str());
        }
        if !self.from_src.as_str().is_empty() {
            target.add("fromSrc", self.from_src.as_str());
        }
        if !self.repo.as_str().is_empty() {
            target.add("repo", self.repo.as_str());
        }
        assert(target.params() =~= filled_param("fromImage"@, self@.from_image) + filled_param(
            "fromSrc"@,
            self@.from_src,
        ) + filled_param("repo"@, self@.repo));
        if !self.tag.as_str().is_empty() {
            target.add("tag", self.tag.as_str());
        }
        if !self.message.as_str().is_empty() {
            target.add("message", self.message.as_str());
        }
        if !self.platform.as_str().is_empty() {
            target.add("platform", self.platform.as_str());
        }
        assert(target.params() =~= image_params(self@));
        target.finish()
    }
}

} // verus!
