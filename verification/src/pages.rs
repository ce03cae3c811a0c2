//! Requests and choices of the device pages: the image collections of the
//! emulation camera, the cameras of an Aravis device and the greeting of the
//! greeter.
use vstd::prelude::*;
use vstd::string::*;
use crate::device::{format_device_id, uuid_text};
use crate::name::{is_valid_name, name_rules};
use crate::pipeline_error::FetchError;
use crate::text::{file_stem, strip_extension, text_equals};

verus! {

/// The address listing the image collections of an emulation camera.
pub fn collection_list_url(device_id: u128) -> (r: String)
    ensures
        r@ == "/api/pilatus-emulation-camera/collection?device_id="@ + uuid_text(device_id),
{
    let mut url = String::from_str("/api/pilatus-emulation-camera/collection?device_id=");
    let id = format_device_id(device_id);
    url.append(id.as_str());
    url
}

/// The address of one image collection of an emulation camera, the target
/// of its deletion.
pub fn collection_url(collection: &str, device_id: u128) -> (r: String)
    ensures
        r@ == "/api/pilatus-emulation-camera/collection/"@ + collection@ + "?device_id="@
            + uuid_text(device_id),
{
    let mut url = String::from_str("/api/pilatus-emulation-camera/collection/");
    url.append(collection);
    url.append("?device_id=");
    let id = format_device_id(device_id);
    url.append(id.as_str());
    url
}

/// The address an image file is uploaded to: the collection, then the file's
/// name without its extension.
pub fn collection_image_url(collection: &str, file_name: &str, device_id: u128) -> (r: String)
    ensures
        r@ == "/api/pilatus-emulation-camera/collection/"@ + collection@ + "/"@ + file_stem(
            file_name@,
        ) + "?device_id="@ + uuid_text(device_id),
{
    let mut url = String::from_str("/api/pilatus-emulation-camera/collection/");
    url.append(collection);
    url.append("/");
    let stem = strip_extension(file_name);
    url.append(stem);
    url.append("?device_id=");
    let id = format_device_id(device_id);
    url.append(id.as_str());
    url
}

/// What confirming the new-collection dialog does.
#[derive(Debug)]
pub enum NewCollectionStep {
    /// Upload the dropped file into a new collection of this name.
    Upload(String),
    /// Upload nothing.
    Discard,
}

/// Confirming the new-collection dialog uploads the dropped file only if a
/// file was dropped and the entered text is a valid collection name; the
/// dialog closes and forgets both either way.
pub fn confirm_new_collection(name: &str, has_file: bool) -> (r: NewCollectionStep)
    ensures
        match r {
            NewCollectionStep::Upload(n) => n@ == name@ && name_rules(name@) && has_file,
            NewCollectionStep::Discard => !(name_rules(name@) && has_file),
        },
{
    if name.unicode_len() > 0 && is_valid_name(name) && has_file {
        NewCollectionStep::Upload(name.to_string())
    } else {
        NewCollectionStep::Discard
    }
}

/// Whether a collection is the one the camera currently shows.
pub fn is_active_collection(active: Option<&str>, name: &str) -> (r: bool)
    ensures
        r == match active {
            Some(a) => a@ == name@,
            None => false,
        },
{
    match active {
        Some(a) => text_equals(a, name),
        None => false,
    }
}

/// The request the greeter sends for a name: none for an empty name.
pub fn greet_url(name: &str) -> (r: Result<String, FetchError>)
    ensures
        name@.len() == 0 ==> (r matches Err(FetchError::Other(m)) && m@ == "Name mustn't be empty"@),
        name@.len() > 0 ==> (r matches Ok(url) && url@ == "/api/pilatus-greeter/greet/"@ + name@),
{
    if name.unicode_len() == 0 {
        Err(FetchError::Other(String::from_str("Name mustn't be empty")))
    } else {
        let mut url = String::from_str("/api/pilatus-greeter/greet/");
        url.append(name);
        Ok(url)
    }
}

/// The address listing the cameras an Aravis device can see.
pub fn aravis_camera_url(device_id: u128) -> (r: String)
    ensures
        r@ == "/api/pilatus-aravis/camera?device_id="@ + uuid_text(device_id),
{
    let mut url = String::from_str("/api/pilatus-aravis/camera?device_id=");
    let id = format_device_id(device_id);
    url.append(id.as_str());
    url
}

} // verus!
