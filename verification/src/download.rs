use crate::common::{DSE_PID, DS_PID};
use vstd::prelude::*;
use vstd::string::StringExecFns;

verus! {

/// Where the vendor publishes firmware.
pub const FIRMWARE_BASE_URL: &'static str = "https://fwupdater.dl.playstation.net/fwupdater/";

/// Why a firmware image cannot be located.
#[derive(Clone, Copy, Debug, PartialEq, Eq, Structural)]
pub enum DownloadError {
    /// The product id is neither that of a DualSense nor of a DualSense Edge.
    UnknownProduct,
    /// The vendor's description names no version for the DualSense.
    NoDualSenseVersion,
    /// The vendor's description names no version for the DualSense Edge.
    NoDualSenseEdgeVersion,
}

impl DownloadError {
    pub open spec fn spec_message(self) -> Seq<char> {
        match self {
            DownloadError::UnknownProduct => "Unknown product ID"@,
            DownloadError::NoDualSenseVersion => "DualSense version not found in info.json"@,
            DownloadError::NoDualSenseEdgeVersion =>
                "DualSense Edge version not found in info.json"@,
        }
    }

    /// Writes this error out for a reader.
    pub fn message(&self) -> (text: String)
        ensures
            text@ == self.spec_message(),
    {
        match self {
            DownloadError::UnknownProduct => "Unknown product ID".to_owned(),
            DownloadError::NoDualSenseVersion =>
                "DualSense version not found in info.json".to_owned(),
            DownloadError::NoDualSenseEdgeVersion =>
                "DualSense Edge version not found in info.json".to_owned(),
        }
    }
}

/// The directory and the file name under which the firmware of a product is published.
pub open spec fn spec_firmware_location(product_id: u16) -> Option<(Seq<char>, Seq<char>)> {
    if product_id == DS_PID {
        Some(("fwupdate0004"@, "FWUPDATE0004.bin"@))
    } else if product_id == DSE_PID {
        Some(("fwupdate0044"@, "FWUPDATE0044.bin"@))
    } else {
        None
    }
}

pub fn firmware_location(product_id: u16) -> (r: Result<
    (&'static str, &'static str),
    DownloadError,
>)
    ensures
        match r {
            Ok((dir, file)) => spec_firmware_location(product_id) == Some((dir@, file@)),
            Err(e) => spec_firmware_location(product_id) is None && e
                == DownloadError::UnknownProduct,
        },
{
    if product_id == DS_PID {
        Ok(("fwupdate0004", "FWUPDATE0004.bin"))
    } else if product_id == DSE_PID {
        Ok(("fwupdate0044", "FWUPDATE0044.bin"))
    } else {
        Err(DownloadError::UnknownProduct)
    }
}

/// The address of the description of the latest versions.
pub fn version_info_url() -> (url: String)
    ensures
        url@ == FIRMWARE_BASE_URL@ + "info.json"@,
{
    FIRMWARE_BASE_URL.to_owned().concat("info.json")
}

/// The address of the image of `version` for a product: base, directory,
/// version and file name, with a slash between the last three.
pub open spec fn spec_firmware_url(product_id: u16, version: Seq<char>) -> Option<Seq<char>> {
    match spec_firmware_location(product_id) {
        Some((dir, file)) => Some(FIRMWARE_BASE_URL@ + dir + "/"@ + version + "/"@ + file),
        None => None,
    }
}

pub fn firmware_url(product_id: u16, version: &str) -> (r: Result<String, DownloadError>)
    ensures
        match r {
            Ok(url) => spec_firmware_url(product_id, version@) == Some(url@),
            Err(e) => spec_firmware_url(product_id, version@) is None && e
                == DownloadError::UnknownProduct,
        },
{
    match firmware_location(product_id) {
        Err(e) => Err(e),
        Ok((dir, file)) => {
            let url = FIRMWARE_BASE_URL.to_owned();
            let url = url.concat(dir);
            let url = url.concat("/");
            let url = url.concat(version);
            let url = url.concat("/");
            Ok(url.concat(file))
        },
    }
}

/// Takes the two latest versions out of the vendor's description; both
/// must be named, and that of the DualSense is looked for first.
pub fn require_versions(dualsense: Option<String>, dualsense_edge: Option<String>) -> (r: Result<
    (String, String),
    DownloadError,
>)
    ensures
        match r {
            Ok((ds, dse)) => dualsense == Some(ds) && dualsense_edge == Some(dse),
            Err(e) => if dualsense is None {
                e == DownloadError::NoDualSenseVersion
            } else {
                dualsense_edge is None && e == DownloadError::NoDualSenseEdgeVersion
            },
        },
{
    match dualsense {
        None => Err(DownloadError::NoDualSenseVersion),
        Some(ds) => match dualsense_edge {
            None => Err(DownloadError::NoDualSenseEdgeVersion),
            Some(dse) => Ok((ds, dse)),
        },
    }
}

/// Picks the latest version for a product out of the two that are published.
pub fn latest_version_for(product_id: u16, dualsense: String, dualsense_edge: String) -> (r:
    Result<String, DownloadError>)
    ensures
        product_id == DS_PID ==> r == Ok::<String, DownloadError>(dualsense),
        product_id == DSE_PID ==> r == Ok::<String, DownloadError>(dualsense_edge),
        product_id != DS_PID && product_id != DSE_PID ==> r == Err::<String, DownloadError>(
            DownloadError::UnknownProduct,
        ),
{
    if product_id == DS_PID {
        Ok(dualsense)
    } else if product_id == DSE_PID {
        Ok(dualsense_edge)
    } else {
        Err(DownloadError::UnknownProduct)
    }
}

/// The share in percent of `total` bytes that `downloaded` bytes are, at most 100.
pub open spec fn spec_download_progress(downloaded: u64, total: u64) -> u32 {
    let p = downloaded * 100 / (total as int);
    if p > 100 {
        100
    } else {
        p as u32
    }
}

pub fn download_progress(downloaded: u64, total: u64) -> (p: u32)
    requires
        total > 0,
    ensures
        p == spec_download_progress(downloaded, total),
        p <= 100,
{
    let p = (downloaded as u128) * 100 / (total as u128);
    if p > 100 {
        100
    } else {
        p as u32
    }
}

/// Progress of a download within a download followed by a flash: the first half.
pub fn download_share(progress: u32) -> (p: u32)
    ensures
        p == progress / 2,
{
    progress / 2
}

/// Progress of a flash within a download followed by a flash: the second half.
pub fn flash_share(progress: u32) -> (p: u32)
    ensures
        p == 50 + progress / 2,
{
    50 + progress / 2
}

} // verus!
