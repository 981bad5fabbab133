//! Where the command line finds the services of the platform.
use vstd::prelude::*;
use vstd::string::*;

verus! {

/// The addresses of the three services.
pub struct ContainerlessShim {
    storage: String,
    dispatcher: String,
    controller: String,
}

/// The addresses, by their characters.
pub struct ShimView {
    pub storage: Seq<char>,
    pub dispatcher: Seq<char>,
    pub controller: Seq<char>,
}

impl View for ContainerlessShim {
    type V = ShimView;

    closed spec fn view(&self) -> ShimView {
        ShimView {
            storage: self.storage@,
            dispatcher: self.dispatcher@,
            controller: self.controller@,
        }
    }
}

impl ContainerlessShim {
    /// The services of a platform that runs on this machine.
    pub fn new() -> (res: ContainerlessShim)
        ensures
            res@ == (ShimView {
                storage: "http://localhost/storage"@,
                dispatcher: "http://localhost/dispatcher"@,
                controller: "http://localhost/controller"@,
            }),
    {
        ContainerlessShim {
            storage: String::from_str("http://localhost/storage"),
            dispatcher: String::from_str("http://localhost/dispatcher"),
            controller: String::from_str("http://localhost/controller"),
        }
    }

    /// Where to post the source of the function `name`.
    pub fn create_function_url(&self, name: &str) -> (res: String)
        ensures
            res@ == self@.controller + "/create_function/"@ + name@,
    {
        self.controller.clone().concat("/create_function/").concat(name)
    }

    /// Where to ask the storage to delete the function `name`.
    pub fn delete_function_url(&self, name: &str) -> (res: String)
        ensures
            res@ == self@.storage + "/delete-function/"@ + name@,
    {
        self.storage.clone().concat("/delete-function/").concat(name)
    }

    /// Where to get the source of the function `name`.
    pub fn describe_function_url(&self, name: &str) -> (res: String)
        ensures
            res@ == self@.storage + "/get_function/"@ + name@,
    {
        self.storage.clone().concat("/get_function/").concat(name)
    }

    /// Where to get the names of all functions.
    pub fn list_functions_url(&self) -> (res: String)
        ensures
            res@ == self@.storage + "/list_functions"@,
    {
        self.storage.clone().concat("/list_functions")
    }

    /// Where to ask the controller for the state of the platform.
    pub fn system_status_url(&self) -> (res: String)
        ensures
            res@ == self@.controller + "/system_status"@,
    {
        self.controller.clone().concat("/system_status")
    }

    /// Where to ask the controller to drop the trace of the function `name`.
    pub fn reset_function_url(&self, name: &str) -> (res: String)
        ensures
            res@ == self@.controller + "/reset_function/"@ + name@,
    {
        self.controller.clone().concat("/reset_function/").concat(name)
    }

    /// Where to ask the controller to scale the function `name` to zero.
    pub fn shutdown_function_url(&self, name: &str) -> (res: String)
        ensures
            res@ == self@.controller + "/shutdown_function/"@ + name@,
    {
        self.controller.clone().concat("/shutdown_function/").concat(name)
    }

    /// Where to ask the controller for the source of the function `name`.
    pub fn get_function_url(&self, name: &str) -> (res: String)
        ensures
            res@ == self@.controller + "/get_function/"@ + name@,
    {
        self.controller.clone().concat("/get_function/").concat(name)
    }

    /// Where to ask the controller for the version of the dispatcher.
    pub fn dispatcher_version_url(&self) -> (res: String)
        ensures
            res@ == self@.controller + "/dispatcher_version"@,
    {
        self.controller.clone().concat("/dispatcher_version")
    }

    /// Where to send a request to the function `name`.
    pub fn invoke_url(&self, name: &str) -> (res: String)
        ensures
            res@ == self@.dispatcher + "/"@ + name@ + "/foo"@,
    {
        self.dispatcher.clone().concat("/").concat(name).concat("/foo")
    }
}

} // verus!
