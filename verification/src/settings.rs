//! The settings of the server and the page it greets with.

use vstd::prelude::*;
use vstd::string::StringExecFns;

verus! {

/// The page served at the root: how to upload and how to download.
pub const INDEX_PAGE: &'static str = "<!DOCTYPE html>
<html>
<head>
<meta charset=\"utf-8\">
<title>File sharing</title>
</head>
<body>
<pre>
USAGE

    POST /
        takes a multipart form whose field \"file\" holds the file to store,
        and answers with the link to fetch it by

    GET /&lt;id&gt;
        answers with the stored file, offered under its original name

EXAMPLE

    curl --form file=@notes.txt https://localhost:8080/
</pre>
</body>
</html>
";

/// Simple http server to upload and download files.
#[derive(Debug)]
pub struct Cli {
    /// ip address
    pub addr: String,
    /// port
    pub port: u16,
    /// upload limit (mebibytes)
    pub upload_limit: usize,
    /// directory with the tls certificates
    pub certs_dir: String,
    /// file name of key
    pub key_file_name: String,
    /// file name of cert
    pub cert_file_name: String,
    /// self signed cert subject alt name
    pub subject_alt_name: String,
}

impl Default for Cli {
    /// The settings of a server started without arguments.
    fn default() -> (cli: Cli)
        ensures
            cli.addr@ == "127.0.0.1"@,
            cli.port == 8080,
            cli.upload_limit == 1000,
            cli.certs_dir@ == "certs"@,
            cli.key_file_name@ == "key.pem"@,
            cli.cert_file_name@ == "cert.pem"@,
            cli.subject_alt_name@ == "localhost"@,
    {
        Cli {
            addr: String::from_str("127.0.0.1"),
            port: 8080,
            upload_limit: 1000,
            certs_dir: String::from_str("certs"),
            key_file_name: String::from_str("key.pem"),
            cert_file_name: String::from_str("cert.pem"),
            subject_alt_name: String::from_str("localhost"),
        }
    }
}

/// The page served at the root.
pub fn index() -> (page: &'static str)
    ensures
        page@ == INDEX_PAGE@,
{
    INDEX_PAGE
}

} // verus!
