//! The identifying attributes of a stored dataset.

use crate::json::{json_string, quote};
use crate::text::{is_blank, lemma_trimmed_is_tidy, text_model, trim, trimmed};
use vstd::prelude::*;
use vstd::string::StringExecFns;

verus! {

/// `dicom_object::FileDicomObject`, a DICOM object as it is read from a
/// file. Nothing of its inside is known here.
#[verifier::external_type_specification]
#[verifier::external_body]
#[verifier::reject_recursive_types(O)]
pub struct ExFileDicomObject<O>(dicom_object::FileDicomObject<O>);

/// `dicom_object::InMemDicomObject`, the data set of such an object.
/// Nothing of its inside is known here.
#[verifier::external_type_specification]
#[verifier::external_body]
#[verifier::reject_recursive_types(D)]
pub struct ExInMemDicomObject<D>(dicom_object::InMemDicomObject<D>);

/// `dicom_object::StandardDataDictionary`, the dictionary by which such a
/// data set finds an attribute by its keyword. Nothing of its inside is known
/// here.
#[verifier::external_type_specification]
#[verifier::external_body]
pub struct ExStandardDataDictionary(dicom_object::StandardDataDictionary);

/// What a DICOM object holds, as far as this crate reads it: for each
/// attribute keyword whose element is present and has a text form, that
/// text.
pub uninterp spec fn element_texts(object: dicom_object::DefaultDicomObject) -> Map<
    Seq<char>,
    Seq<char>,
>;

/// Reads the text of the element with the given keyword: the element is
/// found with `InMemDicomObject::element_by_name` and turned into text with
/// its `DataElement::to_str`. Nothing is proved about this. The contract
/// only gives the outcome a name: the text is what `element_texts` holds
/// under the keyword, and there is none where `element_texts` holds nothing
/// under it, which is the case where the keyword is unknown, where the
/// element is missing and where it has no text form.
#[verifier::external_body]
pub(crate) fn element_text(object: &dicom_object::DefaultDicomObject, keyword: &str) -> (text:
    Option<String>)
    ensures
        text_model(text) == lookup(element_texts(*object), keyword@),
{
    match object.element_by_name(keyword) {
        Ok(element) => match element.to_str() {
            Ok(text) => Some(text.into_owned()),
            Err(_) => None,
        },
        Err(_) => None,
    }
}

/// The text that is held under a keyword, if any.
pub open spec fn lookup(texts: Map<Seq<char>, Seq<char>>, keyword: Seq<char>) -> Option<
    Seq<char>,
> {
    if texts.dom().contains(keyword) {
        Some(texts[keyword])
    } else {
        None
    }
}

/// A text as it is kept: without the white space around it, and not at all
/// where nothing else is in it.
pub open spec fn cleaned(raw: Option<Seq<char>>) -> Option<Seq<char>> {
    match raw {
        Some(text) => if is_blank(text) {
            None
        } else {
            Some(trimmed(text))
        },
        None => None,
    }
}

/// Whether a text is kept as it is: it is absent, or it is not empty and
/// neither starts nor ends with white space.
pub open spec fn is_clean(text: Option<Seq<char>>) -> bool {
    cleaned(text) == text
}

/// Cleans a text.
pub fn clean(raw: Option<String>) -> (kept: Option<String>)
    ensures
        text_model(kept) == cleaned(text_model(raw)),
        is_clean(text_model(kept)),
{
    match raw {
        Some(text) => {
            let short = trim(text.as_str());
            proof {
                lemma_trimmed_is_tidy(text@);
                lemma_trimmed_is_tidy(short@);
            }
            if short.as_str().is_empty() {
                None
            } else {
                Some(short)
            }
        },
        None => None,
    }
}

/// Why the attributes of a dataset could not be had.
#[derive(Debug)]
pub enum CoreError {
    /// The file could not be opened or read as a DICOM file; the text says
    /// why.
    Open(String),
    /// The file holds no pixel data.
    MissingPixelData,
}

/// The message of an error.
pub open spec fn message_of(error: CoreError) -> Seq<char> {
    match error {
        CoreError::Open(detail) => "Failed to open DICOM file: "@ + detail@,
        CoreError::MissingPixelData => "Pixel data missing from DICOM file"@,
    }
}

impl CoreError {
    /// The message of this error.
    pub fn message(&self) -> (message: String)
        ensures
            message@ == message_of(*self),
    {
        match self {
            CoreError::Open(detail) => {
                let mut message = String::from_str("Failed to open DICOM file: ");
                message.append(detail.as_str());
                message
            },
            CoreError::MissingPixelData => String::from_str("Pixel data missing from DICOM file"),
        }
    }
}

/// The identifying attributes of a dataset. Each is absent or a text that is
/// not empty and has no white space around it.
#[derive(Debug)]
pub struct Metadata {
    patient_id: Option<String>,
    patient_name: Option<String>,
    study_instance_uid: Option<String>,
    series_instance_uid: Option<String>,
    sop_instance_uid: Option<String>,
    modality: Option<String>,
}

/// A `Metadata` as plain values.
pub struct MetadataModel {
    pub patient_id: Option<Seq<char>>,
    pub patient_name: Option<Seq<char>>,
    pub study_instance_uid: Option<Seq<char>>,
    pub series_instance_uid: Option<Seq<char>>,
    pub sop_instance_uid: Option<Seq<char>>,
    pub modality: Option<Seq<char>>,
}

impl View for Metadata {
    type V = MetadataModel;

    closed spec fn view(&self) -> MetadataModel {
        MetadataModel {
            patient_id: text_model(self.patient_id),
            patient_name: text_model(self.patient_name),
            study_instance_uid: text_model(self.study_instance_uid),
            series_instance_uid: text_model(self.series_instance_uid),
            sop_instance_uid: text_model(self.sop_instance_uid),
            modality: text_model(self.modality),
        }
    }
}

/// The attributes that result from the six texts as they were read.
pub open spec fn collected(
    patient_id: Option<Seq<char>>,
    patient_name: Option<Seq<char>>,
    study_instance_uid: Option<Seq<char>>,
    series_instance_uid: Option<Seq<char>>,
    sop_instance_uid: Option<Seq<char>>,
    modality: Option<Seq<char>>,
) -> MetadataModel {
    MetadataModel {
        patient_id: cleaned(patient_id),
        patient_name: cleaned(patient_name),
        study_instance_uid: cleaned(study_instance_uid),
        series_instance_uid: cleaned(series_instance_uid),
        sop_instance_uid: cleaned(sop_instance_uid),
        modality: cleaned(modality),
    }
}

/// The attributes that result from what a DICOM object holds.
pub open spec fn extracted(texts: Map<Seq<char>, Seq<char>>) -> MetadataModel {
    collected(
        lookup(texts, "PatientID"@),
        lookup(texts, "PatientName"@),
        lookup(texts, "StudyInstanceUID"@),
        lookup(texts, "SeriesInstanceUID"@),
        lookup(texts, "SOPInstanceUID"@),
        lookup(texts, "Modality"@),
    )
}

/// Whether each attribute is absent or a clean text.
pub open spec fn well_formed(metadata: MetadataModel) -> bool {
    &&& is_clean(metadata.patient_id)
    &&& is_clean(metadata.patient_name)
    &&& is_clean(metadata.study_instance_uid)
    &&& is_clean(metadata.series_instance_uid)
    &&& is_clean(metadata.sop_instance_uid)
    &&& is_clean(metadata.modality)
}

/// The JSON text of one attribute: a string literal, or `null` where the
/// attribute is absent; `None` where the literal cannot be written.
pub open spec fn member_text(value: Option<Seq<char>>) -> Option<Seq<char>> {
    match value {
        Some(text) => json_string(text),
        None => Some("null"@),
    }
}

/// One JSON object with the six attributes as members, in the order of their
/// declaration, whose values are the given JSON texts.
pub open spec fn object_text(
    patient_id: Seq<char>,
    patient_name: Seq<char>,
    study_instance_uid: Seq<char>,
    series_instance_uid: Seq<char>,
    sop_instance_uid: Seq<char>,
    modality: Seq<char>,
) -> Seq<char> {
    "{\"patient_id\":"@ + patient_id + ",\"patient_name\":"@ + patient_name
        + ",\"study_instance_uid\":"@ + study_instance_uid + ",\"series_instance_uid\":"@
        + series_instance_uid + ",\"sop_instance_uid\":"@ + sop_instance_uid + ",\"modality\":"@
        + modality + "}"@
}

/// The JSON text of the attributes; `None` where one of them cannot be
/// written.
pub open spec fn json_of(metadata: MetadataModel) -> Option<Seq<char>> {
    match (
        member_text(metadata.patient_id),
        member_text(metadata.patient_name),
        member_text(metadata.study_instance_uid),
        member_text(metadata.series_instance_uid),
        member_text(metadata.sop_instance_uid),
        member_text(metadata.modality),
    ) {
        (Some(a), Some(b), Some(c), Some(d), Some(e), Some(f)) => Some(
            object_text(a, b, c, d, e, f),
        ),
        _ => None,
    }
}

/// Builds the JSON object of the six attributes from the JSON texts of their
/// values.
pub fn frame_object(
    patient_id: &str,
    patient_name: &str,
    study_instance_uid: &str,
    series_instance_uid: &str,
    sop_instance_uid: &str,
    modality: &str,
) -> (object: String)
    ensures
        object@ == object_text(
            patient_id@,
            patient_name@,
            study_instance_uid@,
            series_instance_uid@,
            sop_instance_uid@,
            modality@,
        ),
{
    let mut object = String::from_str("{\"patient_id\":");
    object.append(patient_id);
    object.append(",\"patient_name\":");
    object.append(patient_name);
    object.append(",\"study_instance_uid\":");
    object.append(study_instance_uid);
    object.append(",\"series_instance_uid\":");
    object.append(series_instance_uid);
    object.append(",\"sop_instance_uid\":");
    object.append(sop_instance_uid);
    object.append(",\"modality\":");
    object.append(modality);
    object.append("}");
    object
}

fn member(value: &Option<String>) -> (text: Option<String>)
    ensures
        text_model(text) == member_text(text_model(*value)),
{
    match value {
        Some(text) => quote(text.as_str()),
        None => Some(String::from_str("null")),
    }
}

fn borrowed(text: &Option<String>) -> (slice: Option<&str>)
    ensures
        slice.is_some() == text.is_some(),
        slice matches Some(s) ==> s@ == text->0@,
{
    match text {
        Some(text) => Some(text.as_str()),
        None => None,
    }
}

impl Metadata {
    /// Each attribute that is kept is a clean text.
    #[verifier::type_invariant]
    closed spec fn kept_clean(self) -> bool {
        well_formed(self@)
    }

    /// The attributes that result from the six texts as they were read, each
    /// cleaned.
    pub fn from_elements(
        patient_id: Option<String>,
        patient_name: Option<String>,
        study_instance_uid: Option<String>,
        series_instance_uid: Option<String>,
        sop_instance_uid: Option<String>,
        modality: Option<String>,
    ) -> (metadata: Metadata)
        ensures
            metadata@ == collected(
                text_model(patient_id),
                text_model(patient_name),
                text_model(study_instance_uid),
                text_model(series_instance_uid),
                text_model(sop_instance_uid),
                text_model(modality),
            ),
            well_formed(metadata@),
    {
        Metadata {
            patient_id: clean(patient_id),
            patient_name: clean(patient_name),
            study_instance_uid: clean(study_instance_uid),
            series_instance_uid: clean(series_instance_uid),
            sop_instance_uid: clean(sop_instance_uid),
            modality: clean(modality),
        }
    }

    /// Reads the attributes of a DICOM object.
    pub fn extract(object: &dicom_object::DefaultDicomObject) -> (metadata: Metadata)
        ensures
            metadata@ == extracted(element_texts(*object)),
            well_formed(metadata@),
    {
        Metadata::from_elements(
            element_text(object, "PatientID"),
            element_text(object, "PatientName"),
            element_text(object, "StudyInstanceUID"),
            element_text(object, "SeriesInstanceUID"),
            element_text(object, "SOPInstanceUID"),
            element_text(object, "Modality"),
        )
    }

    /// The attributes of a file that was opened, or the error where it could
    /// not be opened; `opened` is the object that was read, or the reason
    /// why none was.
    pub fn from_opened(opened: Result<dicom_object::DefaultDicomObject, String>) -> (result: Result<
        Metadata,
        CoreError,
    >)
        ensures
            match opened {
                Ok(object) => result matches Ok(metadata) && metadata@ == extracted(
                    element_texts(object),
                ) && well_formed(metadata@),
                Err(detail) => result matches Err(CoreError::Open(reason)) && reason@ == detail@,
            },
    {
        match opened {
            Ok(object) => Ok(Metadata::extract(&object)),
            Err(detail) => Err(CoreError::Open(detail)),
        }
    }

    /// The patient's identifier.
    pub fn patient_id(&self) -> (text: Option<&str>)
        ensures
            text.is_some() == self@.patient_id.is_some(),
            text matches Some(t) ==> self@.patient_id == Some(t@),
            is_clean(self@.patient_id),
    {
        proof {
            use_type_invariant(self);
        }
        borrowed(&self.patient_id)
    }

    /// The patient's name.
    pub fn patient_name(&self) -> (text: Option<&str>)
        ensures
            text.is_some() == self@.patient_name.is_some(),
            text matches Some(t) ==> self@.patient_name == Some(t@),
            is_clean(self@.patient_name),
    {
        proof {
            use_type_invariant(self);
        }
        borrowed(&self.patient_name)
    }

    /// The identifier of the study.
    pub fn study_instance_uid(&self) -> (text: Option<&str>)
        ensures
            text.is_some() == self@.study_instance_uid.is_some(),
            text matches Some(t) ==> self@.study_instance_uid == Some(t@),
            is_clean(self@.study_instance_uid),
    {
        proof {
            use_type_invariant(self);
        }
        borrowed(&self.study_instance_uid)
    }

    /// The identifier of the series.
    pub fn series_instance_uid(&self) -> (text: Option<&str>)
        ensures
            text.is_some() == self@.series_instance_uid.is_some(),
            text matches Some(t) ==> self@.series_instance_uid == Some(t@),
            is_clean(self@.series_instance_uid),
    {
        proof {
            use_type_invariant(self);
        }
        borrowed(&self.series_instance_uid)
    }

    /// The identifier of the dataset itself.
    pub fn sop_instance_uid(&self) -> (text: Option<&str>)
        ensures
            text.is_some() == self@.sop_instance_uid.is_some(),
            text matches Some(t) ==> self@.sop_instance_uid == Some(t@),
            is_clean(self@.sop_instance_uid),
    {
        proof {
            use_type_invariant(self);
        }
        borrowed(&self.sop_instance_uid)
    }

    /// The kind of equipment that made the dataset.
    pub fn modality(&self) -> (text: Option<&str>)
        ensures
            text.is_some() == self@.modality.is_some(),
            text matches Some(t) ==> self@.modality == Some(t@),
            is_clean(self@.modality),
    {
        proof {
            use_type_invariant(self);
        }
        borrowed(&self.modality)
    }

    /// The attributes as one JSON object, absent ones as `null`; the empty
    /// object where they cannot be written.
    pub fn to_json(&self) -> (json: String)
        ensures
            json@ == match json_of(self@) {
                Some(text) => text,
                None => "{}"@,
            },
    {
        let patient_id = member(&self.patient_id);
        let patient_name = member(&self.patient_name);
        let study_instance_uid = member(&self.study_instance_uid);
        let series_instance_uid = member(&self.series_instance_uid);
        let sop_instance_uid = member(&self.sop_instance_uid);
        let modality = member(&self.modality);
        match (
            patient_id,
            patient_name,
            study_instance_uid,
            series_instance_uid,
            sop_instance_uid,
            modality,
        ) {
            (Some(a), Some(b), Some(c), Some(d), Some(e), Some(f)) => frame_object(
                a.as_str(),
                b.as_str(),
                c.as_str(),
                d.as_str(),
                e.as_str(),
                f.as_str(),
            ),
            _ => String::from_str("{}"),
        }
    }
}

} // verus!
