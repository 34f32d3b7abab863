//! Storage locations and the catalogue for speech-recognition models.
//!
//! The manager knows where model files live and which models exist; the
//! surrounding application does the downloading, listing and deleting.
//! Paths are handled as plain strings with `/` separators.

use vstd::prelude::*;
use vstd::string::StringSliceAdditionalSpecFns;
use vstd::string::StringExecFns;

verus! {

/// One downloadable speech-recognition model.
#[derive(Debug, Clone)]
pub struct WhisperModel {
    pub name: String,
    pub size: String,
    pub url: String,
    pub filename: String,
    pub description: String,
}

/// The mathematical image of a catalogue entry.
pub struct WhisperModelView {
    pub name: Seq<char>,
    pub size: Seq<char>,
    pub url: Seq<char>,
    pub filename: Seq<char>,
    pub description: Seq<char>,
}

impl View for WhisperModel {
    type V = WhisperModelView;

    open spec fn view(&self) -> WhisperModelView {
        WhisperModelView {
            name: self.name@,
            size: self.size@,
            url: self.url@,
            filename: self.filename@,
            description: self.description@,
        }
    }
}

/// Knows the directory under which model files are kept.
pub struct ModelManager {
    pub models_dir: String,
}

/// Relies on `dirs::data_dir`: the platform's data directory for the
/// current user, converted to a string when it is valid Unicode. The
/// result depends on the environment, so nothing is promised of it.
#[verifier::external_body]
fn platform_data_dir() -> Option<String> {
    dirs::data_dir().and_then(|p| p.into_os_string().into_string().ok())
}

/// The models directory relative to a base directory.
pub open spec fn spec_models_dir_under(base: Seq<char>) -> Seq<char> {
    base + "/VirtualATC/models"@
}

/// The models directory under the given base directory.
pub fn models_dir_under(base: &str) -> (r: String)
    ensures
        r@ == spec_models_dir_under(base@),
{
    let mut out = String::new();
    out.append(base);
    out.append("/VirtualATC/models");
    out
}

/// The catalogue of models on offer.
pub open spec fn spec_available_models() -> Seq<WhisperModelView> {
    seq![
        WhisperModelView {
            name: "tiny"@,
            size: "75 MB"@,
            url: "https://huggingface.co/ggerganov/whisper.cpp/resolve/main/ggml-tiny.bin"@,
            filename: "ggml-tiny.bin"@,
            description: "最快，适合测试（英文准确率较低）"@,
        },
        WhisperModelView {
            name: "base"@,
            size: "142 MB"@,
            url: "https://huggingface.co/ggerganov/whisper.cpp/resolve/main/ggml-base.bin"@,
            filename: "ggml-base.bin"@,
            description: "快速，基础识别"@,
        },
        WhisperModelView {
            name: "small"@,
            size: "466 MB"@,
            url: "https://huggingface.co/ggerganov/whisper.cpp/resolve/main/ggml-small.bin"@,
            filename: "ggml-small.bin"@,
            description: "平衡性能和准确率"@,
        },
        WhisperModelView {
            name: "medium"@,
            size: "1.5 GB"@,
            url: "https://huggingface.co/ggerganov/whisper.cpp/resolve/main/ggml-medium.bin"@,
            filename: "ggml-medium.bin"@,
            description: "推荐，高准确率（中英文效果好）"@,
        },
        WhisperModelView {
            name: "large-v3"@,
            size: "3.1 GB"@,
            url: "https://huggingface.co/ggerganov/whisper.cpp/resolve/main/ggml-large-v3.bin"@,
            filename: "ggml-large-v3.bin"@,
            description: "最高准确率，需要强大硬件"@,
        },
    ]
}

/// A model file is named with the catalogue's prefix and extension.
pub open spec fn spec_is_model_filename(b: Seq<u8>) -> bool {
    &&& b.len() >= 9
    &&& b[0] == 103u8
    &&& b[1] == 103u8
    &&& b[2] == 109u8
    &&& b[3] == 108u8
    &&& b[4] == 45u8
    &&& b[b.len() - 4] == 46u8
    &&& b[b.len() - 3] == 98u8
    &&& b[b.len() - 2] == 105u8
    &&& b[b.len() - 1] == 110u8
}

/// Whether a directory entry's name looks like a downloaded model file:
/// it starts with `ggml-` and ends with `.bin`.
pub fn is_model_filename(name: &str) -> (r: bool)
    ensures
        r == spec_is_model_filename(name.spec_bytes()),
{
    let b = name.as_bytes();
    let n = b.len();
    if n < 9 {
        return false;
    }
    b[0] == 103 && b[1] == 103 && b[2] == 109 && b[3] == 108 && b[4] == 45 && b[n - 4] == 46
        && b[n - 3] == 98 && b[n - 2] == 105 && b[n - 1] == 110
}

impl ModelManager {
    /// A manager rooted under the platform data directory, or under the
    /// current directory when the platform names none. The surrounding
    /// application creates the directory on disk.
    pub fn new() -> (r: ModelManager)
        ensures
            exists|base: Seq<char>| r.models_dir@ == spec_models_dir_under(base),
    {
        let base = match platform_data_dir() {
            Some(dir) => dir,
            None => ".".to_owned(),
        };
        let models_dir = models_dir_under(base.as_str());
        let r = ModelManager { models_dir };
        proof {
            assert(r.models_dir@ == spec_models_dir_under(base@));
        }
        r
    }

    /// The catalogue of models on offer.
    pub fn get_available_models() -> (r: Vec<WhisperModel>)
        ensures
            r@.len() == 5,
            forall|i: int| 0 <= i < 5 ==> #[trigger] r@[i]@ == spec_available_models()[i],
    {
        let mut r: Vec<WhisperModel> = Vec::new();
        r.push(WhisperModel {
            name: "tiny".to_owned(),
            size: "75 MB".to_owned(),
            url: "https://huggingface.co/ggerganov/whisper.cpp/resolve/main/ggml-tiny.bin".to_owned(),
            filename: "ggml-tiny.bin".to_owned(),
            description: "最快，适合测试（英文准确率较低）".to_owned(),
        });
        r.push(WhisperModel {
            name: "base".to_owned(),
            size: "142 MB".to_owned(),
            url: "https://huggingface.co/ggerganov/whisper.cpp/resolve/main/ggml-base.bin".to_owned(),
            filename: "ggml-base.bin".to_owned(),
            description: "快速，基础识别".to_owned(),
        });
        r.push(WhisperModel {
            name: "small".to_owned(),
            size: "466 MB".to_owned(),
            url: "https://huggingface.co/ggerganov/whisper.cpp/resolve/main/ggml-small.bin".to_owned(),
            filename: "ggml-small.bin".to_owned(),
            description: "平衡性能和准确率".to_owned(),
        });
        r.push(WhisperModel {
            name: "medium".to_owned(),
            size: "1.5 GB".to_owned(),
            url: "https://huggingface.co/ggerganov/whisper.cpp/resolve/main/ggml-medium.bin".to_owned(),
            filename: "ggml-medium.bin".to_owned(),
            description: "推荐，高准确率（中英文效果好）".to_owned(),
        });
        r.push(WhisperModel {
            name: "large-v3".to_owned(),
            size: "3.1 GB".to_owned(),
            url: "https://huggingface.co/ggerganov/whisper.cpp/resolve/main/ggml-large-v3.bin".to_owned(),
            filename: "ggml-large-v3.bin".to_owned(),
            description: "最高准确率，需要强大硬件".to_owned(),
        });
        assert forall|i: int| 0 <= i < 5 implies #[trigger] r@[i]@ == spec_available_models()[i] by {
            assert(r@[0]@ == spec_available_models()[0]);
            assert(r@[1]@ == spec_available_models()[1]);
            assert(r@[2]@ == spec_available_models()[2]);
            assert(r@[3]@ == spec_available_models()[3]);
            assert(r@[4]@ == spec_available_models()[4]);
        }
        r
    }

    /// The path a model file of the given name would have.
    pub fn get_model_path(&self, filename: &str) -> (r: String)
        ensures
            r@ == self.models_dir@ + "/"@ + filename@,
    {
        let mut out = String::new();
        out.append(self.models_dir.as_str());
        out.append("/");
        out.append(filename);
        out
    }

    /// The directory under which model files are kept.
    pub fn get_models_dir(&self) -> (r: &String)
        ensures
            r@ == self.models_dir@,
    {
        &self.models_dir
    }
}

} // verus!
