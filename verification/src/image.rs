//! References to container images: where an image is fetched from and how
//! its signature is checked.

use vstd::prelude::*;
use vstd::string::StringExecFns;
use crate::error::{InstallError, InstallErrorView};
use crate::text::{chars_of, str_eq};

verus! {

broadcast use vstd::string::group_string_axioms;

/// The ways in which an image can be reached.
#[derive(Debug, Clone, Copy, PartialEq, Eq, Structural)]
pub enum Transport {
    /// A remote registry.
    Registry,
    /// A local directory in OCI layout.
    OciDir,
    /// A local OCI archive.
    OciArchive,
    /// A local docker archive.
    DockerArchive,
    /// The local container storage.
    ContainerStorage,
    /// A local plain directory.
    Dir,
}

/// The transport that a name given on the command line denotes.
pub open spec fn transport_named(name: Seq<char>) -> Option<Transport> {
    if name == "registry"@ || name == "docker"@ {
        Some(Transport::Registry)
    } else if name == "oci"@ {
        Some(Transport::OciDir)
    } else if name == "oci-archive"@ {
        Some(Transport::OciArchive)
    } else if name == "docker-archive"@ {
        Some(Transport::DockerArchive)
    } else if name == "containers-storage"@ {
        Some(Transport::ContainerStorage)
    } else if name == "dir"@ {
        Some(Transport::Dir)
    } else {
        None
    }
}

/// What an image name is prefixed with to say how the image is reached.
pub open spec fn transport_prefix(t: Transport) -> Seq<char> {
    match t {
        Transport::Registry => "docker://"@,
        Transport::OciArchive => "oci-archive:"@,
        Transport::DockerArchive => "docker-archive:"@,
        Transport::OciDir => "oci:"@,
        Transport::ContainerStorage => "containers-storage:"@,
        Transport::Dir => "dir:"@,
    }
}

impl Transport {
    /// The transport with the given name.
    pub fn try_from_name(name: &str) -> (r: Result<Transport, InstallError>)
        ensures
            match r {
                Ok(t) => transport_named(name@) == Some(t),
                Err(e) => transport_named(name@) is None && e@ == (
                InstallErrorView::UnknownTransport { name: name@ }),
            },
    {
        if str_eq(name, "registry") || str_eq(name, "docker") {
            Ok(Transport::Registry)
        } else if str_eq(name, "oci") {
            Ok(Transport::OciDir)
        } else if str_eq(name, "oci-archive") {
            Ok(Transport::OciArchive)
        } else if str_eq(name, "docker-archive") {
            Ok(Transport::DockerArchive)
        } else if str_eq(name, "containers-storage") {
            Ok(Transport::ContainerStorage)
        } else if str_eq(name, "dir") {
            Ok(Transport::Dir)
        } else {
            Err(InstallError::UnknownTransport { name: name.to_owned() })
        }
    }

    /// What an image name is prefixed with to say how the image is
    /// reached.
    pub fn prefix(&self) -> (p: &'static str)
        ensures
            p@ == transport_prefix(*self),
    {
        match self {
            Transport::Registry => "docker://",
            Transport::OciArchive => "oci-archive:",
            Transport::DockerArchive => "docker-archive:",
            Transport::OciDir => "oci:",
            Transport::ContainerStorage => "containers-storage:",
            Transport::Dir => "dir:",
        }
    }
}

/// An image and the way to reach it.
#[derive(Debug)]
pub struct ImageReference {
    pub transport: Transport,
    pub name: String,
}

/// The mathematical value of an [`ImageReference`].
pub struct ImageReferenceView {
    pub transport: Transport,
    pub name: Seq<char>,
}

impl View for ImageReference {
    type V = ImageReferenceView;

    open spec fn view(&self) -> ImageReferenceView {
        ImageReferenceView { transport: self.transport, name: self.name@ }
    }
}

/// The text by which tools are told of an image: the prefix of its
/// transport, then its name.
pub open spec fn image_text(r: ImageReferenceView) -> Seq<char> {
    transport_prefix(r.transport) + r.name
}

impl ImageReference {
    /// The text by which tools are told of this image.
    pub fn to_text(&self) -> (t: String)
        ensures
            t@ == image_text(self@),
    {
        let mut t = String::from_str(self.transport.prefix());
        t.append(self.name.as_str());
        t
    }

    /// A copy of this reference.
    pub fn duplicate(&self) -> (r: ImageReference)
        ensures
            r@ == self@,
    {
        ImageReference { transport: self.transport, name: self.name.clone() }
    }
}

/// How the signature of an image is checked.
#[derive(Debug)]
pub enum SignatureSource {
    /// Against the keys of a named ostree remote.
    OstreeRemote { remote: String },
    /// By the container policy of the system.
    ContainerPolicy,
    /// Not at all, whatever the container policy says.
    ContainerPolicyAllowInsecure,
}

/// The mathematical value of a [`SignatureSource`].
pub enum SignatureSourceView {
    OstreeRemote { remote: Seq<char> },
    ContainerPolicy,
    ContainerPolicyAllowInsecure,
}

impl View for SignatureSource {
    type V = SignatureSourceView;

    open spec fn view(&self) -> SignatureSourceView {
        match self {
            SignatureSource::OstreeRemote { remote } => SignatureSourceView::OstreeRemote {
                remote: remote@,
            },
            SignatureSource::ContainerPolicy => SignatureSourceView::ContainerPolicy,
            SignatureSource::ContainerPolicyAllowInsecure =>
                SignatureSourceView::ContainerPolicyAllowInsecure,
        }
    }
}

/// An image together with the way its signature is checked.
#[derive(Debug)]
pub struct OstreeImageReference {
    pub sigverify: SignatureSource,
    pub imgref: ImageReference,
}

/// The mathematical value of an [`OstreeImageReference`].
pub struct OstreeImageReferenceView {
    pub sigverify: SignatureSourceView,
    pub imgref: ImageReferenceView,
}

impl View for OstreeImageReference {
    type V = OstreeImageReferenceView;

    open spec fn view(&self) -> OstreeImageReferenceView {
        OstreeImageReferenceView { sigverify: self.sigverify@, imgref: self.imgref@ }
    }
}

/// The text that names a way of checking signatures.
pub open spec fn signature_text(s: SignatureSourceView) -> Seq<char> {
    match s {
        SignatureSourceView::OstreeRemote { remote } => "ostree-remote-image:"@ + remote,
        SignatureSourceView::ContainerPolicy => "ostree-image-signed"@,
        SignatureSourceView::ContainerPolicyAllowInsecure => "ostree-unverified-image"@,
    }
}

/// The text that names an image with its signature check. An unverified
/// image from a registry has a short form of its own; all others are the
/// signature check, a colon, and the image.
pub open spec fn ostree_image_text(r: OstreeImageReferenceView) -> Seq<char> {
    if r.sigverify is ContainerPolicyAllowInsecure && r.imgref.transport == Transport::Registry {
        "ostree-unverified-registry:"@ + r.imgref.name
    } else {
        signature_text(r.sigverify) + ":"@ + image_text(r.imgref)
    }
}

impl OstreeImageReference {
    /// The text that names this image with its signature check.
    pub fn to_text(&self) -> (t: String)
        ensures
            t@ == ostree_image_text(self@),
    {
        let insecure = match &self.sigverify {
            SignatureSource::ContainerPolicyAllowInsecure => true,
            _ => false,
        };
        let registry = match self.imgref.transport {
            Transport::Registry => true,
            _ => false,
        };
        if insecure && registry {
            let mut t = String::from_str("ostree-unverified-registry:");
            t.append(self.imgref.name.as_str());
            return t;
        }
        let mut t = match &self.sigverify {
            SignatureSource::OstreeRemote { remote } => {
                let mut t = String::from_str("ostree-remote-image:");
                t.append(remote.as_str());
                t
            },
            SignatureSource::ContainerPolicy => String::from_str("ostree-image-signed"),
            SignatureSource::ContainerPolicyAllowInsecure => String::from_str(
                "ostree-unverified-image",
            ),
        };
        t.append(":");
        let image = self.imgref.to_text();
        t.append(image.as_str());
        assert(t@ =~= signature_text(self@.sigverify) + ":"@ + image_text(self@.imgref));
        t
    }
}

/// The position of the last `@` in `s`, or the length of `s` when it has
/// none.
pub open spec fn digest_start(s: Seq<char>) -> int
    decreases s.len(),
{
    if s.len() == 0 {
        0
    } else if s.last() == '@' {
        s.len() - 1
    } else if digest_start(s.drop_last()) == s.len() - 1 {
        s.len() as int
    } else {
        digest_start(s.drop_last())
    }
}

/// The name of `image` pinned to `digest`: the image without the digest it
/// may already carry, an `@`, and the digest.
pub open spec fn pinned_name(image: Seq<char>, digest: Seq<char>) -> Seq<char> {
    image.subrange(0, digest_start(image)) + "@"@ + digest
}

proof fn lemma_digest_start(s: Seq<char>, at: int)
    requires
        0 <= at <= s.len(),
        at < s.len() ==> s[at] == '@',
        forall|k: int| at < k < s.len() ==> #[trigger] s[k] != '@',
        at == s.len() ==> forall|k: int| 0 <= k < s.len() ==> #[trigger] s[k] != '@',
    ensures
        digest_start(s) == at,
    decreases s.len(),
{
    if s.len() > 0 {
        if s.last() == '@' {
        } else {
            let rest = s.drop_last();
            if at == s.len() {
                assert forall|k: int| 0 <= k < rest.len() implies #[trigger] rest[k] != '@' by {
                    assert(rest[k] == s[k]);
                }
                lemma_digest_start(rest, at - 1);
            } else {
                assert(rest[at] == s[at]);
                assert forall|k: int| at < k < rest.len() implies #[trigger] rest[k] != '@' by {
                    assert(rest[k] == s[k]);
                }
                lemma_digest_start(rest, at);
            }
        }
    }
}

/// The name of `image` pinned to `digest`.
pub fn digested_pullspec(image: &str, digest: &str) -> (spec: String)
    ensures
        spec@ == pinned_name(image@, digest@),
{
    let cs = chars_of(image);
    let mut at: usize = cs.len();
    let mut found = false;
    while at > 0 && !found
        invariant
            at <= cs.len(),
            cs@ == image@,
            found ==> at < cs.len() && cs@[at as int] == '@',
            !found ==> forall|k: int| at <= k < cs.len() ==> #[trigger] cs@[k] != '@',
            forall|k: int| at < k < cs.len() ==> #[trigger] cs@[k] != '@',
        decreases at + (if found { 0int } else { 1int }),
    {
        at -= 1;
        if cs[at] == '@' {
            found = true;
        }
    }
    let end = if found {
        at
    } else {
        cs.len()
    };
    proof {
        lemma_digest_start(image@, end as int);
    }
    let mut spec = String::from_str(image.substring_char(0, end));
    spec.append("@");
    spec.append(digest);
    spec
}

} // verus!
