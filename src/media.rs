use vstd::prelude::*;
use vstd::string::StringExecFns;
use crate::error::QwenError;
use crate::qwen_models::TaskStatus;
use crate::streaming::str_eq;

verus! {

/// How many times a generation task is polled before giving up.
pub const MAX_POLL_ATTEMPTS: u32 = 300;

/// The answer to starting a generation task.
#[derive(Debug, Clone)]
pub struct TaskResponse {
    pub success: bool,
    pub data: TaskData,
}

#[derive(Debug, Clone)]
pub struct TaskData {
    pub message_id: String,
    pub messages: Vec<TaskMessage>,
    pub chat_id: String,
    pub parent_id: String,
}

#[derive(Debug, Clone)]
pub struct TaskMessage {
    pub extra: Option<TaskExtra>,
}

#[derive(Debug, Clone)]
pub struct TaskExtra {
    pub wanx: Option<WanxTask>,
}

#[derive(Debug, Clone)]
pub struct WanxTask {
    pub task_id: String,
}

/// The task id that the first message of a started task carries, if any.
pub open spec fn task_id_of(data: TaskData) -> Option<Seq<char>> {
    if data.messages@.len() > 0 {
        match data.messages@[0].extra {
            Some(e) => match e.wanx {
                Some(w) => Some(w.task_id@),
                None => None,
            },
            None => None,
        }
    } else {
        None
    }
}

/// What one poll of a task's status decides.
#[derive(Debug, Clone)]
pub enum PollStep {
    /// Done: the media URL.
    Succeeded(String),
    /// The task failed.
    Failed(QwenError),
    /// Still running: poll again.
    Running,
    /// A status this client does not know: poll again.
    Unknown,
}

/// The polling of media generation tasks.
pub struct MediaGenerator;

impl MediaGenerator {
    /// The id of a started task; an error where the answer carries none.
    pub fn task_id(data: &TaskData) -> (r: Result<String, QwenError>)
        ensures
            match r {
                Ok(id) => task_id_of(*data) == Some(id@),
                Err(e) => task_id_of(*data) is None && e is ApiError,
            },
    {
        if data.messages.len() > 0 {
            if let Some(e) = &data.messages[0].extra {
                if let Some(w) = &e.wanx {
                    return Ok(w.task_id.clone());
                }
            }
        }
        Err(QwenError::ApiError(String::from_str("No task_id in response")))
    }

    /// What a polled status decides: `success` hands out the media URL, `failed`
    /// the task's message, `running` and anything else mean polling on.
    pub fn poll_step(status: &TaskStatus) -> (r: PollStep)
        ensures
            status.task_status@ == "success"@ <==> r is Succeeded,
            r matches PollStep::Succeeded(url) ==> url@ == status.content@,
            status.task_status@ == "failed"@ <==> r is Failed,
            r matches PollStep::Failed(QwenError::ApiError(m)) ==> m@ == "Video generation failed: "@ + status.message@,
            r is Failed ==> r matches PollStep::Failed(QwenError::ApiError(_)),
            status.task_status@ == "running"@ <==> r is Running,
    {
        proof {
            reveal_strlit("success");
            reveal_strlit("failed");
            reveal_strlit("running");
            assert("success"@.len() != "failed"@.len());
            assert("success"@[0] != "running"@[0]);
            assert("failed"@.len() != "running"@.len());
        }
        if str_eq(status.task_status.as_str(), "success") {
            PollStep::Succeeded(status.content.clone())
        } else if str_eq(status.task_status.as_str(), "failed") {
            let mut msg = String::from_str("Video generation failed: ");
            msg.append(status.message.as_str());
            PollStep::Failed(QwenError::ApiError(msg))
        } else if str_eq(status.task_status.as_str(), "running") {
            PollStep::Running
        } else {
            PollStep::Unknown
        }
    }

    /// The error when a task is still not done after the last poll.
    pub fn poll_timeout() -> (e: QwenError)
        ensures
            e matches QwenError::ApiError(m) && m@ == "Video generation timeout"@,
    {
        QwenError::ApiError(String::from_str("Video generation timeout"))
    }
}

} // verus!
