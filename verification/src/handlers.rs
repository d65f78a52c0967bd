//! The two request handlers. Upload: bound the body, generate a fresh
//! identifier, store the body under it, answer with the retrieval URL.
//! Retrieve: fetch the identifier's content and answer with it verbatim,
//! or with the literal text `Value not found` on a missing key and on any
//! store failure alike.
use vstd::prelude::*;
use vstd::string::StrSliceExecFns;
use vstd::string::StringExecFns;
use crate::paste_id::ID_LENGTH;
use crate::paste_id::PasteId;
use crate::paste_id::valid_id;
use crate::store::KvStore;
use crate::store::StoreError;

verus! {

/// Largest number of characters an upload body may hold (the boundary
/// layer enforces the same bound in bytes before the body is decoded).
pub const MAX_BODY: usize = 131072;

/// Why an upload was refused before anything was stored.
#[derive(Debug, PartialEq, Eq, Structural)]
pub enum UploadError {
    /// The body exceeds the accepted size cap.
    BodyTooLarge,
}

/// The retrieval URL of a paste: the configured base URL, a slash, the
/// identifier.
pub fn paste_url(host: &str, id: &PasteId) -> (r: String)
    ensures
        r@ == host@ + "/"@ + id@,
{
    let mut url = host.to_owned();
    url.append("/");
    url.append(id.as_str());
    url
}

/// Builds the upload response for one finished store write. The write's
/// outcome is deliberately discarded: the service answers with the
/// retrieval URL even when the write failed, so a failed write yields a
/// dead link (preserved behaviour of the service).
pub fn upload_response(host: &str, id: &PasteId, put_result: Result<(), StoreError>) -> (r:
    String)
    ensures
        r@ == host@ + "/"@ + id@,
{
    paste_url(host, id)
}

/// Renders one fetch outcome as the response body: the stored content
/// verbatim when it was found; the literal text `Value not found` on a
/// missing key and on any store failure alike, reported in-band as a
/// successful response.
pub fn render_fetch(outcome: Result<String, StoreError>) -> (r: String)
    ensures
        outcome matches Ok(v) ==> r == v,
        outcome is Err ==> r@ == "Value not found"@,
{
    match outcome {
        Ok(v) => v,
        Err(_) => "Value not found".to_owned(),
    }
}

/// Handles an upload: refuses a body over the size cap without touching
/// the store; otherwise stores the body under a fresh random identifier
/// of the configured length and returns the retrieval URL built from the
/// given base URL and that identifier.
pub fn handle_upload(store: &mut KvStore, host: &str, body: String) -> (r: Result<
    String,
    UploadError,
>)
    ensures
        body@.len() > MAX_BODY ==> (r matches Err(e) && e == UploadError::BodyTooLarge
            && final(store)@ == old(store)@),
        body@.len() <= MAX_BODY ==> (r matches Ok(url) && exists|id: Seq<char>|
            {
                &&& #[trigger] valid_id(id)
                &&& id.len() == ID_LENGTH as nat
                &&& url@ == host@ + "/"@ + id
                &&& final(store)@ == old(store)@.insert(id, body@)
            }),
{
    let len = body.as_str().unicode_len();
    if len > MAX_BODY {
        return Err(UploadError::BodyTooLarge);
    }
    let ghost before = store@;
    let ghost content = body@;
    let id = PasteId::new(ID_LENGTH);
    let _ = store.put(id.as_str(), body);
    let url = paste_url(host, &id);
    proof {
        assert(valid_id(id@) && id@.len() == ID_LENGTH as nat && url@ == host@ + "/"@ + id@
            && store@ == before.insert(id@, content));
    }
    Ok(url)
}

/// Handles a retrieval: answers with the content stored under the
/// identifier, or with the literal text `Value not found` when the
/// identifier holds nothing.
pub fn handle_retrieve(store: &KvStore, id: &PasteId) -> (r: String)
    ensures
        store@.contains_key(id@) ==> r@ == store@[id@],
        !store@.contains_key(id@) ==> r@ == "Value not found"@,
{
    render_fetch(store.get(id.as_str()))
}

} // verus!
