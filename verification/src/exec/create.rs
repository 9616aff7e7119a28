//! The request that creates an exec instance.

use vstd::prelude::*;

verus! {

/// Accumulates the fields of a [`Request`].
#[derive(Debug)]
pub struct RequestBuilder {
    pub id: String,
    pub cmd: Vec<String>,
    pub user: String,
    pub attach_stderr: bool,
    pub attach_stdin: bool,
    pub attach_stdout: bool,
}

impl View for RequestBuilder {
    type V = RequestModel;

    open spec fn view(&self) -> RequestModel {
        RequestModel {
            id: self.id.deep_view(),
            cmd: self.cmd.deep_view(),
            user: self.user.deep_view(),
            attach_stderr: self.attach_stderr,
            attach_stdin: self.attach_stdin,
            attach_stdout: self.attach_stdout,
        }
    }
}

impl DeepView for RequestBuilder {
    type V = RequestModel;

    open spec fn deep_view(&self) -> RequestModel {
        self@
    }
}

/// The request that creates an exec instance in a container.
#[derive(Debug)]
pub struct Request {
    pub id: String,
    pub cmd: Vec<String>,
    pub user: String,
    pub attach_stderr: bool,
    pub attach_stdin: bool,
    pub attach_stdout: bool,
}

/// What a [`Request`] or its builder holds.
pub struct RequestModel {
    pub id: Seq<char>,
    pub cmd: Seq<Seq<char>>,
    pub user: Seq<char>,
    pub attach_stderr: bool,
    pub attach_stdin: bool,
    pub attach_stdout: bool,
}

impl View for Request {
    type V = RequestModel;

    open spec fn view(&self) -> RequestModel {
        RequestModel {
            id: self.id.deep_view(),
            cmd: self.cmd.deep_view(),
            user: self.user.deep_view(),
            attach_stderr: self.attach_stderr,
            attach_stdin: self.attach_stdin,
            attach_stdout: self.attach_stdout,
        }
    }
}

impl DeepView for Request {
    type V = RequestModel;

    open spec fn deep_view(&self) -> RequestModel {
        self@
    }
}

/// What the engine answers when it has created an exec instance.
#[derive(Debug)]
pub struct Exec {
    /// The id of the exec instance.
    pub id: String,
}

impl Default for RequestBuilder {
    fn default() -> (b: Self)
        ensures
            b@ == (RequestModel {
                id: Seq::empty(),
                cmd: Seq::empty(),
                user: Seq::empty(),
                attach_stderr: false,
                attach_stdin: false,
                attach_stdout: false,
            }),
    {
        let b = RequestBuilder {
            id: String::new(),
            cmd: Vec::new(),
            user: String::new(),
            attach_stderr: false,
            attach_stdin: false,
            attach_stdout: false,
        };
        assert(b.cmd.deep_view() =~= Seq::<Seq<char>>::empty());
        b
    }
}

impl RequestBuilder {
    /// A builder for the container `container`, with no command.
    pub fn with_container(container: &str) -> (b: Self)
        ensures
            b@ == (RequestModel {
                id: container@,
                cmd: Seq::empty(),
                user: Seq::empty(),
                attach_stderr: false,
                attach_stdin: false,
                attach_stdout: false,
            }),
    {
        let b = RequestBuilder {
            id: container.to_owned(),
            cmd: Vec::new(),
            user: String::new(),
            attach_stderr: false,
            attach_stdin: false,
            attach_stdout: false,
        };
        assert(b.cmd.deep_view() =~= Seq::<Seq<char>>::empty());
        b
    }

    /// Appends one word to the command.
    pub fn add_command(&mut self, command: &str) -> (ret: &mut Self)
        ensures
            ret@ == (RequestModel { cmd: old(self)@.cmd.push(command@), ..old(self)@ }),
            *final(self) == *final(ret),
    {
        self.cmd.push(command.to_owned());
        assert(self.cmd.deep_view() =~= old(self)@.cmd.push(command@));
        self
    }

    /// Appends words to the command, in order.
    pub fn add_commands(&mut self, commands: Vec<String>) -> (ret: &mut Self)
        ensures
            ret@ == (RequestModel { cmd: old(self)@.cmd + commands.deep_view(), ..old(self)@ }),
            *final(self) == *final(ret),
    {
        let mut rest = commands;
        self.cmd.append(&mut rest);
        assert(self.cmd.deep_view() =~= old(self).cmd.deep_view() + commands.deep_view());
        self
    }

    /// Sets the user that runs the command.
    pub fn user(&mut self, user: &str) -> (ret: &mut Self)
        ensures
            ret@ == (RequestModel { user: user@, ..old(self)@ }),
            *final(self) == *final(ret),
    {
        self.user = user.to_owned();
        self
    }

    /// Sets whether standard input is attached.
    pub fn attach_stdin(&mut self, v: bool) -> (ret: &mut Self)
        ensures
            ret@ == (RequestModel { attach_stdin: v, ..old(self)@ }),
            *final(self) == *final(ret),
    {
        self.attach_stdin = v;
        self
    }

    /// Sets whether standard output is attached.
    pub fn attach_stdout(&mut self, v: bool) -> (ret: &mut Self)
        ensures
            ret@ == (RequestModel { attach_stdout: v, ..old(self)@ }),
            *final(self) == *final(ret),
    {
        self.attach_stdout = v;
        self
    }

    /// Sets whether standard error is attached.
    pub fn attach_stderr(&mut self, v: bool) -> (ret: &mut Self)
        ensures
            ret@ == (RequestModel { attach_stderr: v, ..old(self)@ }),
            *final(self) == *final(ret),
    {
        self.attach_stderr = v;
        self
    }

    /// The request with the fields set so far.
    pub fn build(&self) -> (res: Request)
        ensures
            res@ == self@,
    {
        let id = self.id.clone();
        let cmd = self.cmd.clone();
        assert(cmd.deep_view() =~= self.cmd.deep_view());
        let user = self.user.clone();
        Request {
            id,
            cmd,
            user,
            attach_stderr: self.attach_stderr,
            attach_stdin: self.attach_stdin,
            attach_stdout: self.attach_stdout,
        }
    }
}

impl Request {
    /// A builder for the container `container`, with no command.
    pub fn with_container(container: &str) -> (b: RequestBuilder)
        ensures
            b@ == (RequestModel {
                id: container@,
                cmd: Seq::empty(),
                user: Seq::empty(),
                attach_stderr: false,
                attach_stdin: false,
                attach_stdout: false,
            }),
    {
        RequestBuilder::with_container(container)
    }

    /// The target of the request: `/containers/<id>/exec`.
    pub fn get_path(&self) -> (s: String)
        ensures
            s@ == "/containers/"@ + self@.id + "/exec"@,
    {
        let mut s = "/containers/".to_owned();
        s.append(self.id.as_str());
        s.append("/exec");
        s
    }
}

} // verus!
