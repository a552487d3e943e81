# What crosses the RPC stream between `app/client.rs` and `app/server.rs`.
# `app/channel_capnp.rs` holds the bindings.

@0xb6f3c1d27a905e48;

interface Channel @0xd1c4a70be36f2295 {
  # One byte channel.

  send @0 (message :Data) -> (result :SendResult);
  recv @1 () -> (result :RecvResult);
}

interface Builder @0xe85b09f4d7c3a116 {
  # Builds channels from opaque tokens.

  build @0 (input :Data) -> (result :BuildResult);
}

struct SendResult @0x9a7e54c0b21fd863 {
  union {
    accepted @0 :Void;
    tooLarge @1 :UInt64;
    # The limit of the backend, in bytes.
    closed @2 :Void;
    failed @3 :Text;
    # What the backend says of its failure.
  }
}

struct RecvResult @0xc30d9be8f1457a2e {
  union {
    message @0 :Data;
    closed @1 :Void;
    failed @2 :Text;
  }
}

struct BuildResult @0xf2684ad1093bc75f {
  union {
    channel @0 :Channel;
    unreachable @1 :Void;
    failed @2 :Text;
  }
}
